//! The safety gate: a command is refused when its lowercase form holds one of
//! a fixed list of dangerous fragments.

use vstd::prelude::*;
use crate::text::{chars_of, contains_text, find_text};

verus! {

/// Whether every character of a text is ASCII.
pub open spec fn is_ascii_text(text: Seq<char>) -> bool {
    forall|i: int| 0 <= i < text.len() ==> (#[trigger] text[i]) as u32 <= 0x7f
}

/// An ASCII capital as its small letter; every other character as it is.
pub open spec fn ascii_lower(c: char) -> char {
    if 0x41 <= c as u32 <= 0x5a {
        ((c as u8 + 0x20) as u8) as char
    } else {
        c
    }
}

/// An ASCII small letter as its capital; every other character as it is.
pub open spec fn ascii_upper(c: char) -> char {
    if 0x61 <= c as u32 <= 0x7a {
        ((c as u8 - 0x20) as u8) as char
    } else {
        c
    }
}

/// A text with each ASCII capital replaced by its small letter.
pub open spec fn ascii_lowered(text: Seq<char>) -> Seq<char> {
    Seq::new(text.len(), |i: int| ascii_lower(text[i]))
}

/// A text with each ASCII small letter replaced by its capital.
pub open spec fn ascii_uppered(text: Seq<char>) -> Seq<char> {
    Seq::new(text.len(), |i: int| ascii_upper(text[i]))
}

/// The lowercase form that `str::to_lowercase` gives a text in which some
/// character is not ASCII.
pub uninterp spec fn lowercase_beyond_ascii(text: Seq<char>) -> Seq<char>;

/// The lowercase form of a text: of an ASCII text, the text with its capitals
/// replaced by small letters; of any other, what Unicode defines.
pub open spec fn lowercase_of(text: Seq<char>) -> Seq<char> {
    if is_ascii_text(text) {
        ascii_lowered(text)
    } else {
        lowercase_beyond_ascii(text)
    }
}

/// Calls `str::to_lowercase`. The result is the lowercase form of the text as
/// Unicode defines it. For an ASCII text the contract says what that is: the
/// capitals `A` to `Z` become `a` to `z` and nothing else changes. For any
/// other text it only gives the result its name.
#[verifier::external_body]
fn to_lowercase(text: &str) -> (lowered: String)
    ensures
        lowered@ == lowercase_of(text@),
        !is_ascii_text(text@) ==> lowered@ == lowercase_beyond_ascii(text@),
{
    text.to_lowercase()
}

/// How many fragments the denylist holds.
pub const DENYLIST_LEN: usize = 6;

/// The denylist, in lowercase: recursive delete, filesystem format, raw disk
/// write, redirection into a device file, recursive permission change, and the
/// fork bomb.
pub open spec fn denylist() -> Seq<Seq<char>> {
    seq![
        "rm -rf"@,
        "mkfs"@,
        "dd"@,
        "> /dev/"@,
        "chmod -r"@,
        ":(){ :|:& };:"@,
    ]
}

/// A lowercase text holds a fragment of the denylist.
pub open spec fn denylist_hit(lowered: Seq<char>) -> bool {
    exists|k: int| 0 <= k < denylist().len() && contains_text(lowered, #[trigger] denylist()[k])
}

/// A command is dangerous when its lowercase form holds a denylisted fragment.
pub open spec fn is_dangerous(command: Seq<char>) -> bool {
    denylist_hit(lowercase_of(command))
}

/// One fragment of the denylist.
pub fn dangerous_fragment(k: usize) -> (fragment: &'static str)
    requires
        k < DENYLIST_LEN,
    ensures
        fragment@ == denylist()[k as int],
{
    if k == 0 {
        "rm -rf"
    } else if k == 1 {
        "mkfs"
    } else if k == 2 {
        "dd"
    } else if k == 3 {
        "> /dev/"
    } else if k == 4 {
        "chmod -r"
    } else {
        ":(){ :|:& };:"
    }
}

/// Tests a text that is already in lowercase against the denylist.
pub fn matches_denylist(lowered: &str) -> (hit: bool)
    ensures
        hit == denylist_hit(lowered@),
{
    let text = chars_of(lowered);
    let mut k: usize = 0;
    while k < DENYLIST_LEN
        invariant
            k <= DENYLIST_LEN,
            text@ == lowered@,
            denylist().len() == DENYLIST_LEN,
            forall|j: int| 0 <= j < k ==> !contains_text(lowered@, #[trigger] denylist()[j]),
        decreases DENYLIST_LEN - k,
    {
        let fragment = chars_of(dangerous_fragment(k));
        if find_text(&text, &fragment) {
            return true;
        }
        k += 1;
    }
    false
}

/// The safety gate. Letter case is ignored: the command is put in lowercase
/// first, then searched for each fragment of the denylist.
pub fn is_dangerous_command(command: &str) -> (dangerous: bool)
    ensures
        dangerous == is_dangerous(command@),
{
    let lowered = to_lowercase(command);
    matches_denylist(lowered.as_str())
}

/// A lowercase text in which a denylisted fragment stands at some offset is
/// refused by the safety gate.
pub proof fn lemma_fragment_is_refused(lowered: Seq<char>, k: int, at: int)
    requires
        0 <= k < denylist().len(),
        crate::text::occurs_at(lowered, denylist()[k], at),
    ensures
        denylist_hit(lowered),
{
}

/// A lowercase text in which no denylisted fragment stands at any offset
/// passes the safety gate.
pub proof fn lemma_clean_text_passes(lowered: Seq<char>)
    requires
        forall|k: int, at: int|
            0 <= k < denylist().len() ==> !#[trigger] crate::text::occurs_at(lowered, denylist()[k], at),
    ensures
        !denylist_hit(lowered),
{
}

/// Putting an ASCII text in capitals or in small letters leaves its lowercase
/// form as it was.
pub proof fn lemma_ascii_case_keeps_lowercase(text: Seq<char>)
    requires
        is_ascii_text(text),
    ensures
        is_ascii_text(ascii_uppered(text)),
        is_ascii_text(ascii_lowered(text)),
        lowercase_of(ascii_uppered(text)) == lowercase_of(text),
        lowercase_of(ascii_lowered(text)) == lowercase_of(text),
{
    assert forall|i: int| 0 <= i < text.len() implies ascii_lower(ascii_upper(text[i]))
        == ascii_lower(text[i]) && ascii_lower(ascii_lower(text[i])) == ascii_lower(text[i])
        && ascii_upper(text[i]) as u32 <= 0x7f && ascii_lower(text[i]) as u32 <= 0x7f by {
        assert(text[i] as u32 <= 0x7f);
    }
    assert(ascii_lowered(ascii_uppered(text)) =~= ascii_lowered(text));
    assert(ascii_lowered(ascii_lowered(text)) =~= ascii_lowered(text));
}

/// The safety gate ignores the letter case of an ASCII command: in capitals,
/// in small letters and as it stands it is judged alike.
pub proof fn lemma_ascii_case_is_ignored(command: Seq<char>)
    requires
        is_ascii_text(command),
    ensures
        is_dangerous(ascii_uppered(command)) == is_dangerous(command),
        is_dangerous(ascii_lowered(command)) == is_dangerous(command),
{
    lemma_ascii_case_keeps_lowercase(command);
}

/// An ASCII command that holds, in whatever letter case, a piece whose
/// lowercase form is a denylisted fragment is dangerous.
pub proof fn lemma_fragment_in_any_case_is_refused(
    before: Seq<char>,
    piece: Seq<char>,
    after: Seq<char>,
    k: int,
)
    requires
        is_ascii_text(before + piece + after),
        0 <= k < denylist().len(),
        ascii_lowered(piece) == denylist()[k],
    ensures
        is_dangerous(before + piece + after),
{
    let whole = before + piece + after;
    let lowered = ascii_lowered(whole);
    let at = before.len() as int;
    assert(lowered.subrange(at, at + piece.len()) =~= ascii_lowered(piece));
    assert(crate::text::occurs_at(lowered, denylist()[k], at));
}

/// An ASCII command in whose lowercase form no denylisted fragment stands is
/// not dangerous.
pub proof fn lemma_command_without_fragment_passes(command: Seq<char>)
    requires
        is_ascii_text(command),
        forall|k: int, at: int|
            0 <= k < denylist().len() ==> !#[trigger] crate::text::occurs_at(
                ascii_lowered(command),
                denylist()[k],
                at,
            ),
    ensures
        !is_dangerous(command),
{
}

} // verus!
