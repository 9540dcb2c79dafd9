//! The sanitizer: takes the bare command out of a backend's reply.

use vstd::prelude::*;
use crate::text::{
    contains_text, lemma_contains_is_transitive, lemma_trimmed_idempotent,
    lemma_trimmed_is_a_piece, lemma_trimmed_is_contained, occurs_at, skip_white_space, trim_text,
    trimmed,
};

verus! {

#[verifier::external_type_specification]
#[verifier::external_body]
pub struct ExRegexError(regex::Error);

/// What the first capture group of the leftmost match of a regular expression
/// in a text holds, as the regex engine finds it; `None` where the pattern is
/// refused, nothing matches, or the group took no part in the match. A group
/// is always a piece of the text that was searched.
pub uninterp spec fn first_group(pattern: Seq<char>, haystack: Seq<char>) -> Option<Seq<char>>;

/// Calls `regex::Regex::new` on the pattern and `Regex::captures` on the text,
/// and copies out group 1 (`Captures::get`, `Match::as_str`). An error is the
/// pattern refused by `Regex::new`. The contract gives the group its name and
/// says that it is a piece of the text, as `Match::as_str` hands out a slice
/// of it; which piece, it does not say.
#[verifier::external_body]
fn capture_first_group(pattern: &str, haystack: &str) -> (found: Result<Option<String>, regex::Error>)
    ensures
        match found {
            Ok(Some(group)) => first_group(pattern@, haystack@) == Some(group@) && contains_text(
                haystack@,
                group@,
            ),
            Ok(None) => first_group(pattern@, haystack@) is None,
            Err(_) => first_group(pattern@, haystack@) is None,
        },
{
    let re = regex::Regex::new(pattern)?;
    Ok(re.captures(haystack).and_then(|found| found.get(1)).map(|group| group.as_str().to_string()))
}

/// The pattern of a fenced block: three backticks, an optional tag `shell` or
/// `bash`, white space, the interior up to the next three backticks.
pub const FENCE_PATTERN: &'static str = "```(?:shell|bash)?\\s*\\n?([\\s\\S]*?)```";

/// The pattern of a fenced block, as characters.
pub open spec fn fence_pattern() -> Seq<char> {
    FENCE_PATTERN@
}

/// The command in a reply, given the interior of its first fenced block if it
/// has one: the interior trimmed, else the whole reply trimmed.
pub open spec fn command_from(block: Option<Seq<char>>, raw: Seq<char>) -> Seq<char> {
    match block {
        Some(interior) => trimmed(interior),
        None => trimmed(raw),
    }
}

/// The command in a reply.
pub open spec fn clean(raw: Seq<char>) -> Seq<char> {
    command_from(first_group(fence_pattern(), raw), raw)
}

/// Picks the command once the search for a fenced block is done.
pub fn select_command(block: Option<String>, raw: &str) -> (command: String)
    ensures
        command@ == command_from(
            match block {
                Some(interior) => Some(interior@),
                None => None,
            },
            raw@,
        ),
{
    match block {
        Some(interior) => trim_text(interior.as_str()),
        None => trim_text(raw),
    }
}

/// The sanitizer: the trimmed interior of the first fenced block of the reply,
/// or the trimmed reply where it has none. The command is a piece of the
/// reply as it stands, nothing in it rewritten, with no white space left
/// around it.
pub fn clean_command_output(command: &str) -> (cleaned: String)
    ensures
        cleaned@ == clean(command@),
        trimmed(cleaned@) == cleaned@,
        contains_text(command@, cleaned@),
{
    proof {
        lemma_command_is_stable(first_group(fence_pattern(), command@), command@);
    }
    match capture_first_group(FENCE_PATTERN, command) {
        Ok(block) => {
            proof {
                if block is Some {
                    let interior = block->Some_0@;
                    lemma_trimmed_is_contained(interior);
                    lemma_contains_is_transitive(command@, interior, trimmed(interior));
                } else {
                    lemma_trimmed_is_contained(command@);
                }
            }
            select_command(block, command)
        },
        Err(_) => {
            proof {
                lemma_trimmed_is_contained(command@);
            }
            select_command(None, command)
        },
    }
}

/// The mark that opens and closes a fenced block: three backticks.
pub open spec fn fence_mark() -> Seq<char> {
    seq!['`', '`', '`']
}

/// A text holds the fence mark twice, the second time after the first has ended.
pub open spec fn has_two_fences(text: Seq<char>) -> bool {
    exists|i: int, j: int|
        #![trigger occurs_at(text, fence_mark(), i), occurs_at(text, fence_mark(), j)]
        occurs_at(text, fence_mark(), i) && occurs_at(text, fence_mark(), j) && i + 3 <= j
}

/// A search for a fenced block that finds one exactly in the texts that hold
/// the fence mark twice without overlap, and hands out an interior that holds
/// no fence mark.
pub open spec fn finds_fenced_blocks(find: spec_fn(Seq<char>) -> Option<Seq<char>>) -> bool {
    forall|text: Seq<char>|
        match #[trigger] find(text) {
            Some(interior) => has_two_fences(text) && !contains_text(interior, fence_mark()),
            None => !has_two_fences(text),
        }
}

/// Trimming brings no pair of fence marks into a text.
pub proof fn lemma_trimmed_has_no_new_fences(text: Seq<char>)
    requires
        !has_two_fences(text),
    ensures
        !has_two_fences(trimmed(text)),
{
    if has_two_fences(trimmed(text)) {
        let (i, j) = choose|i: int, j: int|
            #![trigger occurs_at(trimmed(text), fence_mark(), i), occurs_at(trimmed(text), fence_mark(), j)]
            occurs_at(trimmed(text), fence_mark(), i) && occurs_at(trimmed(text), fence_mark(), j)
                && i + 3 <= j;
        lemma_trimmed_is_a_piece(text, fence_mark(), i);
        lemma_trimmed_is_a_piece(text, fence_mark(), j);
        let lo = skip_white_space(text, 0);
        assert(occurs_at(text, fence_mark(), lo + i) && occurs_at(text, fence_mark(), lo + j) && (lo
            + i) + 3 <= lo + j);
    }
}

/// Sanitizing is idempotent with every search that finds fenced blocks as
/// `finds_fenced_blocks` says: the command picked from a reply is picked
/// again, unchanged, from itself.
pub proof fn lemma_cleaning_is_idempotent(
    find: spec_fn(Seq<char>) -> Option<Seq<char>>,
    raw: Seq<char>,
)
    requires
        finds_fenced_blocks(find),
    ensures
        ({
            let once = command_from(find(raw), raw);
            command_from(find(once), once) == once
        }),
{
    let once = command_from(find(raw), raw);
    match find(raw) {
        Some(interior) => {
            if has_two_fences(once) {
                let (i, j) = choose|i: int, j: int|
                    #![trigger occurs_at(once, fence_mark(), i), occurs_at(once, fence_mark(), j)]
                    occurs_at(once, fence_mark(), i) && occurs_at(once, fence_mark(), j) && i + 3
                        <= j;
                lemma_trimmed_is_a_piece(interior, fence_mark(), i);
                assert(contains_text(interior, fence_mark()));
            }
            lemma_trimmed_idempotent(interior);
        },
        None => {
            lemma_trimmed_has_no_new_fences(raw);
            lemma_trimmed_idempotent(raw);
        },
    }
    assert(find(once) is None);
}

/// A command that was picked stays as it is when it is picked again from a
/// text without a fenced block.
pub proof fn lemma_command_is_stable(block: Option<Seq<char>>, raw: Seq<char>)
    ensures
        command_from(None, command_from(block, raw)) == command_from(block, raw),
{
    match block {
        Some(interior) => lemma_trimmed_idempotent(interior),
        None => lemma_trimmed_idempotent(raw),
    }
}

} // verus!
