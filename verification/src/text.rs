//! Small verified helpers on character sequences: occurrence of one text in
//! another, and trimming of outer white space.

use vstd::prelude::*;
use vstd::string::StrSliceExecFns;
use vstd::string::StringExecFns;

verus! {

/// `pat` stands in `text` at offset `at`.
pub open spec fn occurs_at(text: Seq<char>, pat: Seq<char>, at: int) -> bool {
    &&& 0 <= at
    &&& at + pat.len() <= text.len()
    &&& text.subrange(at, at + pat.len()) == pat
}

/// `pat` stands somewhere in `text`.
pub open spec fn contains_text(text: Seq<char>, pat: Seq<char>) -> bool {
    exists|at: int| occurs_at(text, pat, at)
}

/// `pat` is the beginning of `text`.
pub open spec fn starts_with_text(text: Seq<char>, pat: Seq<char>) -> bool {
    occurs_at(text, pat, 0)
}

/// The characters of a string, one by one.
pub fn chars_of(s: &str) -> (out: Vec<char>)
    ensures
        out@ == s@,
{
    let n: usize = s.unicode_len();
    let mut out: Vec<char> = Vec::new();
    let mut i: usize = 0;
    while i < n
        invariant
            n == s@.len(),
            i <= n,
            out@ == s@.subrange(0, i as int),
        decreases n - i,
    {
        let c = s.get_char(i);
        out.push(c);
        i += 1;
        assert(out@ =~= s@.subrange(0, i as int));
    }
    assert(s@.subrange(0, n as int) =~= s@);
    out
}

/// Whether two strings hold the same text.
pub fn same_text(a: &str, b: &str) -> (same: bool)
    ensures
        same == (a@ == b@),
{
    let left = chars_of(a);
    let right = chars_of(b);
    if left.len() != right.len() {
        return false;
    }
    let same = matches_at(&left, &right, 0);
    proof {
        assert(left@.subrange(0, left@.len() as int) =~= left@);
    }
    same
}

/// Whether `pat` stands in `text` at offset `at`.
pub fn matches_at(text: &Vec<char>, pat: &Vec<char>, at: usize) -> (hit: bool)
    ensures
        hit == occurs_at(text@, pat@, at as int),
{
    if pat.len() > text.len() || at > text.len() - pat.len() {
        return false;
    }
    let mut k: usize = 0;
    while k < pat.len()
        invariant
            k <= pat.len(),
            at + pat.len() <= text.len(),
            forall|j: int| 0 <= j < k ==> text@[at + j] == pat@[j],
        decreases pat.len() - k,
    {
        if text[at + k] != pat[k] {
            proof {
                let piece = text@.subrange(at as int, at + pat.len());
                assert(piece[k as int] == text@[at + k]);
            }
            return false;
        }
        k += 1;
    }
    assert(text@.subrange(at as int, at + pat.len()) =~= pat@);
    true
}

/// Whether `pat` stands somewhere in `text`.
pub fn find_text(text: &Vec<char>, pat: &Vec<char>) -> (hit: bool)
    ensures
        hit == contains_text(text@, pat@),
{
    if pat.len() > text.len() {
        return false;
    }
    let last: usize = text.len() - pat.len();
    let mut at: usize = 0;
    while at < last
        invariant
            last == text.len() - pat.len(),
            at <= last,
            forall|j: int| 0 <= j < at ==> !occurs_at(text@, pat@, j),
        decreases last - at,
    {
        if matches_at(text, pat, at) {
            return true;
        }
        at += 1;
    }
    matches_at(text, pat, last)
}

/// Whether a character has the Unicode property White_Space: the controls
/// from tab to carriage return, the space, next line, the no-break space, the
/// ogham space mark, the spaces from en quad to hair space, the line and
/// paragraph separators, the narrow no-break space, the medium mathematical
/// space and the ideographic space.
pub open spec fn is_white_space(c: char) -> bool {
    let n = c as u32;
    ||| 0x09 <= n <= 0x0d
    ||| n == 0x20
    ||| n == 0x85
    ||| n == 0xa0
    ||| n == 0x1680
    ||| 0x2000 <= n <= 0x200a
    ||| n == 0x2028
    ||| n == 0x2029
    ||| n == 0x202f
    ||| n == 0x205f
    ||| n == 0x3000
}

/// Calls `char::is_whitespace`, which tells whether the character has the
/// Unicode property White_Space. The contract says which characters have it.
#[verifier::external_body]
fn char_is_whitespace(c: char) -> (w: bool)
    ensures
        w == is_white_space(c),
{
    c.is_whitespace()
}

/// The first offset at or after `from` whose character is not white space, or
/// the length of the text if there is none.
pub open spec fn skip_white_space(s: Seq<char>, from: int) -> int
    decreases s.len() - from,
{
    if 0 <= from < s.len() && is_white_space(s[from]) {
        skip_white_space(s, from + 1)
    } else {
        from
    }
}

/// The end of the last character before `to` and not before `lo` that is not
/// white space, or `lo` if there is none.
pub open spec fn drop_white_space(s: Seq<char>, lo: int, to: int) -> int
    decreases to - lo,
{
    if lo < to <= s.len() && 0 < to && is_white_space(s[to - 1]) {
        drop_white_space(s, lo, to - 1)
    } else {
        to
    }
}

/// The text without its leading and trailing white space.
pub open spec fn trimmed(s: Seq<char>) -> Seq<char> {
    let lo = skip_white_space(s, 0);
    let hi = drop_white_space(s, lo, s.len() as int);
    s.subrange(lo, hi)
}

/// Where the leading white space ends.
pub proof fn lemma_skip_white_space(s: Seq<char>, from: int)
    requires
        0 <= from <= s.len(),
    ensures
        from <= skip_white_space(s, from) <= s.len(),
        skip_white_space(s, from) < s.len() ==> !is_white_space(s[skip_white_space(s, from)]),
        forall|i: int| from <= i < skip_white_space(s, from) ==> is_white_space(#[trigger] s[i]),
    decreases s.len() - from,
{
    if from < s.len() && is_white_space(s[from]) {
        lemma_skip_white_space(s, from + 1);
    }
}

/// Where the trailing white space begins.
pub proof fn lemma_drop_white_space(s: Seq<char>, lo: int, to: int)
    requires
        0 <= lo <= to <= s.len(),
    ensures
        lo <= drop_white_space(s, lo, to) <= to,
        lo < drop_white_space(s, lo, to) ==> !is_white_space(s[drop_white_space(s, lo, to) - 1]),
        forall|i: int| drop_white_space(s, lo, to) <= i < to ==> is_white_space(#[trigger] s[i]),
        lo < to && !is_white_space(s[lo]) ==> lo < drop_white_space(s, lo, to),
    decreases to - lo,
{
    if lo < to && is_white_space(s[to - 1]) {
        lemma_drop_white_space(s, lo, to - 1);
    }
}

/// A trimmed text is empty, or begins and ends with a character that is not
/// white space.
pub proof fn lemma_trimmed_ends(s: Seq<char>)
    ensures
        trimmed(s).len() <= s.len(),
        trimmed(s).len() > 0 ==> !is_white_space(trimmed(s).first()) && !is_white_space(
            trimmed(s).last(),
        ),
{
    lemma_skip_white_space(s, 0);
    let lo = skip_white_space(s, 0);
    lemma_drop_white_space(s, lo, s.len() as int);
}

/// Trimming a trimmed text changes nothing.
pub proof fn lemma_trimmed_idempotent(s: Seq<char>)
    ensures
        trimmed(trimmed(s)) == trimmed(s),
{
    lemma_trimmed_ends(s);
    let t = trimmed(s);
    if t.len() > 0 {
        assert(skip_white_space(t, 0) == 0);
        assert(drop_white_space(t, 0, t.len() as int) == t.len());
    } else {
        assert(skip_white_space(t, 0) == 0);
        assert(drop_white_space(t, 0, 0) == 0);
    }
    assert(trimmed(t) =~= t);
}

/// A trimmed text is a piece of the text it was cut from: what stands in it
/// at some offset stands in the whole, further on by the white space that
/// was cut off in front.
pub proof fn lemma_trimmed_is_a_piece(s: Seq<char>, pat: Seq<char>, at: int)
    requires
        occurs_at(trimmed(s), pat, at),
    ensures
        occurs_at(s, pat, skip_white_space(s, 0) + at),
{
    lemma_skip_white_space(s, 0);
    let lo = skip_white_space(s, 0);
    lemma_drop_white_space(s, lo, s.len() as int);
    assert(s.subrange(lo + at, lo + at + pat.len()) =~= trimmed(s).subrange(
        at,
        at + pat.len(),
    ));
}

/// A trimmed text stands in the text it was cut from.
pub proof fn lemma_trimmed_is_contained(s: Seq<char>)
    ensures
        contains_text(s, trimmed(s)),
{
    lemma_skip_white_space(s, 0);
    let lo = skip_white_space(s, 0);
    lemma_drop_white_space(s, lo, s.len() as int);
    let hi = drop_white_space(s, lo, s.len() as int);
    assert(s.subrange(lo, lo + trimmed(s).len()) =~= trimmed(s));
    assert(occurs_at(s, trimmed(s), lo));
}

/// What stands in a piece of a text stands in the text.
pub proof fn lemma_contains_is_transitive(whole: Seq<char>, part: Seq<char>, pat: Seq<char>)
    requires
        contains_text(whole, part),
        contains_text(part, pat),
    ensures
        contains_text(whole, pat),
{
    let a = choose|a: int| occurs_at(whole, part, a);
    let b = choose|b: int| occurs_at(part, pat, b);
    let inner = whole.subrange(a, a + part.len());
    assert(inner == part);
    assert(whole.subrange(a + b, a + b + pat.len()) =~= inner.subrange(b, b + pat.len()));
    assert(occurs_at(whole, pat, a + b));
}

/// Removes leading and trailing white space.
pub fn trim_text(s: &str) -> (out: String)
    ensures
        out@ == trimmed(s@),
{
    let chars = chars_of(s);
    let n: usize = chars.len();
    let mut lo: usize = 0;
    while lo < n && char_is_whitespace(chars[lo])
        invariant
            chars@ == s@,
            n == chars.len(),
            lo <= n,
            skip_white_space(s@, 0) == skip_white_space(s@, lo as int),
        decreases n - lo,
    {
        lo += 1;
    }
    let mut hi: usize = n;
    while lo < hi && char_is_whitespace(chars[hi - 1])
        invariant
            chars@ == s@,
            n == chars.len(),
            lo <= hi <= n,
            drop_white_space(s@, lo as int, n as int) == drop_white_space(
                s@,
                lo as int,
                hi as int,
            ),
        decreases hi - lo,
    {
        hi -= 1;
    }
    String::from_str(s.substring_char(lo, hi))
}

} // verus!
