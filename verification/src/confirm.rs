use vstd::prelude::*;
use vstd::string::StrSliceExecFns;

verus! {

/// Whether `c` has the Unicode White_Space property, by which `str::trim`
/// decides what to remove.
pub open spec fn is_white_space(c: char) -> bool {
    let code = c as int;
    ||| 0x9 <= code <= 0xd
    ||| code == 0x20
    ||| code == 0x85
    ||| code == 0xa0
    ||| code == 0x1680
    ||| 0x2000 <= code <= 0x200a
    ||| code == 0x2028
    ||| code == 0x2029
    ||| code == 0x202f
    ||| code == 0x205f
    ||| code == 0x3000
}

/// The text without its leading white space.
pub open spec fn trim_start(text: Seq<char>) -> Seq<char>
    decreases text.len(),
{
    if text.len() > 0 && is_white_space(text[0]) {
        trim_start(text.drop_first())
    } else {
        text
    }
}

/// The text without its trailing white space.
pub open spec fn trim_end(text: Seq<char>) -> Seq<char>
    decreases text.len(),
{
    if text.len() > 0 && is_white_space(text.last()) {
        trim_end(text.drop_last())
    } else {
        text
    }
}

/// The text without its leading and trailing white space.
pub open spec fn trimmed(text: Seq<char>) -> Seq<char> {
    trim_end(trim_start(text))
}

/// Whether `c` has the Unicode White_Space property.
fn white_space(c: char) -> (space: bool)
    ensures
        space == is_white_space(c),
{
    let code = c as u32;
    (0x9 <= code && code <= 0xd) || code == 0x20 || code == 0x85 || code == 0xa0 || code == 0x1680
        || (0x2000 <= code && code <= 0x200a) || code == 0x2028 || code == 0x2029 || code == 0x202f
        || code == 0x205f || code == 0x3000
}

/// The text without its leading and trailing white space, as `str::trim`
/// gives it.
fn trim_text(text: &str) -> (rest: &str)
    ensures
        rest@ == trimmed(text@),
{
    let n = text.unicode_len();
    let mut start: usize = 0;
    assert(text@.subrange(0, n as int) =~= text@);
    while start < n && white_space(text.get_char(start))
        invariant
            n == text@.len(),
            start <= n,
            trim_start(text@) == trim_start(text@.subrange(start as int, n as int)),
        decreases n - start,
    {
        proof {
            let rest = text@.subrange(start as int, n as int);
            assert(rest.drop_first() =~= text@.subrange(start + 1, n as int));
            assert(rest[0] == text@[start as int]);
        }
        start = start + 1;
    }
    proof {
        let rest = text@.subrange(start as int, n as int);
        if start < n {
            assert(rest[0] == text@[start as int]);
        }
    }
    let mut end: usize = n;
    while end > start && white_space(text.get_char(end - 1))
        invariant
            n == text@.len(),
            start <= end <= n,
            trim_start(text@) == text@.subrange(start as int, n as int),
            trim_end(text@.subrange(start as int, n as int)) == trim_end(text@.subrange(start as int, end as int)),
        decreases end,
    {
        proof {
            let kept = text@.subrange(start as int, end as int);
            assert(kept.drop_last() =~= text@.subrange(start as int, end - 1));
            assert(kept.last() == text@[end - 1]);
        }
        end = end - 1;
    }
    proof {
        let kept = text@.subrange(start as int, end as int);
        if end > start {
            assert(kept.last() == text@[end - 1]);
        }
    }
    text.substring_char(start, end)
}

/// Whether an answer, already trimmed, is a yes: the single letter `y` in
/// either case.
pub fn answer_is_yes(answer: &str) -> (yes: bool)
    ensures
        yes == (answer@ == seq!['y'] || answer@ == seq!['Y']),
{
    if answer.unicode_len() != 1 {
        assert(answer@ != seq!['y'] && answer@ != seq!['Y']);
        return false;
    }
    let letter = answer.get_char(0);
    let yes = letter == 'y' || letter == 'Y';
    assert(yes ==> answer@ =~= seq![letter]);
    yes
}

/// Every character of `text` is white space.
pub open spec fn all_white_space(text: Seq<char>) -> bool {
    forall|i: int| 0 <= i < text.len() ==> is_white_space(#[trigger] text[i])
}

/// Whether a reply to the deletion prompt is a yes: once its surrounding
/// white space is trimmed, it is `y` or `Y`.
pub open spec fn reply_confirms(reply: Seq<char>) -> bool {
    trimmed(reply) == seq!['y'] || trimmed(reply) == seq!['Y']
}

/// Whether a reply to the deletion prompt confirms the deletion: once
/// surrounding whitespace is trimmed, it is `y` or `Y`.
pub fn confirms_deletion(reply: &str) -> (yes: bool)
    ensures
        yes == reply_confirms(reply@),
        yes == (trimmed(reply@) == seq!['y'] || trimmed(reply@) == seq!['Y']),
{
    answer_is_yes(trim_text(reply))
}

/// A text of white space alone trims to nothing.
pub proof fn lemma_white_space_trims_away(space: Seq<char>)
    requires
        forall|i: int| 0 <= i < space.len() ==> is_white_space(#[trigger] space[i]),
    ensures
        trim_start(space) == Seq::<char>::empty(),
    decreases space.len(),
{
    if space.len() > 0 {
        lemma_white_space_trims_away(space.drop_first());
    }
}

/// White space in front of a text is trimmed away from its start.
pub proof fn lemma_leading_space_trimmed(space: Seq<char>, text: Seq<char>)
    requires
        forall|i: int| 0 <= i < space.len() ==> is_white_space(#[trigger] space[i]),
    ensures
        trim_start(space + text) == trim_start(text),
    decreases space.len(),
{
    if space.len() == 0 {
        assert(space + text =~= text);
    } else {
        assert((space + text)[0] == space[0]);
        assert((space + text).drop_first() =~= space.drop_first() + text);
        lemma_leading_space_trimmed(space.drop_first(), text);
    }
}

/// White space behind a text is trimmed away from its end.
pub proof fn lemma_trailing_space_trimmed(text: Seq<char>, space: Seq<char>)
    requires
        forall|i: int| 0 <= i < space.len() ==> is_white_space(#[trigger] space[i]),
    ensures
        trim_end(text + space) == trim_end(text),
    decreases space.len(),
{
    if space.len() == 0 {
        assert(text + space =~= text);
    } else {
        assert((text + space).last() == space.last());
        assert((text + space).drop_last() =~= text + space.drop_last());
        lemma_trailing_space_trimmed(text, space.drop_last());
    }
}

/// Trimming the start of a text followed by white space keeps that white
/// space, unless the text is white space alone.
proof fn lemma_trim_start_before_space(text: Seq<char>, space: Seq<char>)
    requires
        forall|i: int| 0 <= i < space.len() ==> is_white_space(#[trigger] space[i]),
    ensures
        trim_start(text + space) == if trim_start(text).len() > 0 {
            trim_start(text) + space
        } else {
            Seq::<char>::empty()
        },
    decreases text.len(),
{
    if text.len() == 0 {
        assert(text + space =~= space);
        lemma_white_space_trims_away(space);
    } else {
        assert((text + space)[0] == text[0]);
        if is_white_space(text[0]) {
            assert((text + space).drop_first() =~= text.drop_first() + space);
            lemma_trim_start_before_space(text.drop_first(), space);
        }
    }
}

/// White space around a reply never changes how it trims: for any text and
/// any white space, the text with the white space after it, or before it,
/// trims to what the text alone trims to.
pub proof fn lemma_surrounding_space_ignored(text: Seq<char>, space: Seq<char>)
    requires
        forall|i: int| 0 <= i < space.len() ==> is_white_space(#[trigger] space[i]),
    ensures
        trimmed(text + space) == trimmed(text),
        trimmed(space + text) == trimmed(text),
{
    lemma_leading_space_trimmed(space, text);
    lemma_trim_start_before_space(text, space);
    if trim_start(text).len() > 0 {
        lemma_trailing_space_trimmed(trim_start(text), space);
    }
}

/// What trimming the start removes is white space in front of what it
/// keeps.
proof fn lemma_trim_start_parts(text: Seq<char>)
    ensures
        trim_start(text).len() <= text.len(),
        text == text.take(text.len() - trim_start(text).len()) + trim_start(text),
        all_white_space(text.take(text.len() - trim_start(text).len())),
    decreases text.len(),
{
    if text.len() > 0 && is_white_space(text[0]) {
        let rest = text.drop_first();
        lemma_trim_start_parts(rest);
        let m = rest.len() - trim_start(rest).len();
        assert(text.take(m + 1) =~= seq![text[0]] + rest.take(m));
        assert(text =~= seq![text[0]] + rest);
        assert forall|i: int| 0 <= i < m + 1 implies is_white_space(#[trigger] text.take(m + 1)[i]) by {
            if i > 0 {
                assert(text.take(m + 1)[i] == rest.take(m)[i - 1]);
            }
        }
    } else {
        assert(text.take(0) =~= Seq::<char>::empty());
        assert(text =~= Seq::<char>::empty() + text);
    }
}

/// What trimming the end removes is white space behind what it keeps.
proof fn lemma_trim_end_parts(text: Seq<char>)
    ensures
        trim_end(text).len() <= text.len(),
        text == trim_end(text) + text.skip(trim_end(text).len() as int),
        all_white_space(text.skip(trim_end(text).len() as int)),
    decreases text.len(),
{
    if text.len() > 0 && is_white_space(text.last()) {
        let rest = text.drop_last();
        lemma_trim_end_parts(rest);
        let k = trim_end(rest).len() as int;
        assert(text.skip(k) =~= rest.skip(k).push(text.last()));
        assert(text =~= rest.push(text.last()));
        assert forall|i: int| 0 <= i < text.skip(k).len() implies is_white_space(#[trigger] text.skip(k)[i]) by {
            if i < rest.skip(k).len() {
                assert(text.skip(k)[i] == rest.skip(k)[i]);
            }
        }
    } else {
        assert(text.skip(text.len() as int) =~= Seq::<char>::empty());
        assert(text =~= text + Seq::<char>::empty());
    }
}

/// White space around a reply never changes the decision: the reply with
/// any white space after it, or before it, confirms exactly when the reply
/// alone does.
pub proof fn lemma_space_around_reply_ignored(reply: Seq<char>, space: Seq<char>)
    requires
        all_white_space(space),
    ensures
        reply_confirms(reply + space) == reply_confirms(reply),
        reply_confirms(space + reply) == reply_confirms(reply),
{
    lemma_surrounding_space_ignored(reply, space);
}

/// `letter` with `lead` in front of it and `trail` behind it.
pub open spec fn surrounded(lead: Seq<char>, letter: char, trail: Seq<char>) -> Seq<char> {
    lead + seq![letter] + trail
}

/// The replies that confirm a deletion are exactly the letter `y` or `Y`
/// with any white space before and after it.
pub proof fn lemma_confirming_replies(reply: Seq<char>)
    ensures
        reply_confirms(reply) <==> exists|lead: Seq<char>, letter: char, trail: Seq<char>|
            all_white_space(lead) && all_white_space(trail) && (letter == 'y' || letter == 'Y')
                && #[trigger] surrounded(lead, letter, trail) == reply,
        reply_confirms(seq!['y']),
        reply_confirms(seq!['Y']),
{
    lemma_unspaced_text_kept(seq!['y']);
    lemma_unspaced_text_kept(seq!['Y']);
    lemma_trim_start_parts(reply);
    let kept = trim_start(reply);
    lemma_trim_end_parts(kept);
    let lead = reply.take(reply.len() - kept.len());
    let trail = kept.skip(trim_end(kept).len() as int);
    assert(reply == lead + trimmed(reply) + trail) by {
        assert(lead + trimmed(reply) + trail =~= lead + (trim_end(kept) + trail));
    }
    if reply_confirms(reply) {
        let letter = trimmed(reply)[0];
        assert(trimmed(reply) =~= seq![letter]);
        assert(surrounded(lead, letter, trail) == reply);
    }
    if exists|lead: Seq<char>, letter: char, trail: Seq<char>|
        all_white_space(lead) && all_white_space(trail) && (letter == 'y' || letter == 'Y')
            && #[trigger] surrounded(lead, letter, trail) == reply {
        let (l, c, t) = choose|lead: Seq<char>, letter: char, trail: Seq<char>|
            all_white_space(lead) && all_white_space(trail) && (letter == 'y' || letter == 'Y')
                && #[trigger] surrounded(lead, letter, trail) == reply;
        lemma_surrounding_space_ignored(l + seq![c], t);
        lemma_surrounding_space_ignored(seq![c], l);
        lemma_unspaced_text_kept(seq![c]);
    }
}

/// A text that neither starts nor ends with white space trims to itself.
pub proof fn lemma_unspaced_text_kept(text: Seq<char>)
    requires
        text.len() > 0 ==> !is_white_space(text[0]) && !is_white_space(text.last()),
    ensures
        trimmed(text) == text,
{
}

} // verus!

verus! {

/// What the delete command does once the search has listed its files.
pub enum DeletePlan {
    /// Nothing matched: report that and stop.
    NothingFound,
    /// Ask before deleting.
    AskFirst,
    /// Delete without asking.
    DeleteNow,
}

/// The delete command's plan: nothing to do when no file was found;
/// otherwise delete at once when the deletion was confirmed in advance,
/// and ask first when it was not.
pub fn plan_deletion(found: usize, confirmed_in_advance: bool) -> (plan: DeletePlan)
    ensures
        plan is NothingFound <==> found == 0,
        plan is DeleteNow <==> found > 0 && confirmed_in_advance,
        plan is AskFirst <==> found > 0 && !confirmed_in_advance,
{
    if found == 0 {
        DeletePlan::NothingFound
    } else if confirmed_in_advance {
        DeletePlan::DeleteNow
    } else {
        DeletePlan::AskFirst
    }
}

} // verus!
