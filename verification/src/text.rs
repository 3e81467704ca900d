use vstd::prelude::*;
use vstd::string::*;

verus! {

/// `part` occurs in `text` as a contiguous run of characters.
pub open spec fn contains_text(text: Seq<char>, part: Seq<char>) -> bool {
    exists|i: int|
        0 <= i && i + part.len() <= text.len() && #[trigger] text.subrange(i, i + part.len())
            == part
}

/// The Unicode lowercase mapping of a text, as `str::to_lowercase` computes it.
pub uninterp spec fn lowercase(text: Seq<char>) -> Seq<char>;

/// Every character of the text is an ASCII character.
pub open spec fn is_ascii_text(text: Seq<char>) -> bool {
    forall|i: int| 0 <= i < text.len() ==> (#[trigger] text[i] as u32) < 128
}

/// The ASCII lowercase of a character: `A`..`Z` become `a`..`z`, every other character
/// stays.
pub open spec fn ascii_lower_char(c: char) -> char {
    if 'A' <= c && c <= 'Z' {
        ((c as u32) + 32) as char
    } else {
        c
    }
}

/// The text with every ASCII uppercase letter replaced by its lowercase letter.
pub open spec fn ascii_lowercase(text: Seq<char>) -> Seq<char> {
    text.map_values(|c: char| ascii_lower_char(c))
}

/// Calls `str::to_lowercase`. Claimed: the result is `lowercase` of the argument's
/// characters, a function of those characters alone; and on a text of ASCII
/// characters, whose Unicode lowercase mappings are the single characters of ASCII
/// lowercase, it is the ASCII lowercase of the text. What the mapping is on other
/// characters (Unicode case tables) is left unstated.
#[verifier::external_body]
pub(crate) fn to_lowercase(text: &str) -> (lower: String)
    ensures
        lower@ == lowercase(text@),
        is_ascii_text(text@) ==> lower@ == ascii_lowercase(text@),
{
    text.to_lowercase()
}

/// The characters of a text, one per element.
pub(crate) fn chars_of(text: &str) -> (chars: Vec<char>)
    ensures
        chars@ == text@,
{
    let n = text.unicode_len();
    let mut chars: Vec<char> = Vec::new();
    let mut i: usize = 0;
    while i < n
        invariant
            n == text@.len(),
            i <= n,
            chars@ == text@.subrange(0, i as int),
        decreases n - i,
    {
        chars.push(text.get_char(i));
        i = i + 1;
    }
    chars
}

/// Whether `part` occurs in `text` starting at position `start`.
fn occurs_at(text: &Vec<char>, part: &Vec<char>, start: usize) -> (found: bool)
    requires
        start + part@.len() <= text@.len(),
    ensures
        found == (text@.subrange(start as int, start + part@.len()) == part@),
{
    let m = part.len();
    let mut j: usize = 0;
    while j < m
        invariant
            m == part@.len(),
            start + m <= text.len(),
            j <= m,
            forall|t: int| 0 <= t < j ==> text@[start + t] == part@[t],
        decreases m - j,
    {
        let at = start + j;
        if text[at] != part[j] {
            assert(text@.subrange(start as int, start + m)[j as int] != part@[j as int]);
            return false;
        }
        j = j + 1;
    }
    assert(text@.subrange(start as int, start + m) =~= part@);
    true
}

/// Whether `part` occurs in `text`.
pub(crate) fn contains(text: &Vec<char>, part: &str) -> (found: bool)
    ensures
        found == contains_text(text@, part@),
{
    let wanted = chars_of(part);
    let n = text.len();
    let m = wanted.len();
    if m > n {
        return false;
    }
    if m == 0 {
        assert(text@.subrange(0, 0int + part@.len()) =~= part@);
        return true;
    }
    let mut i: usize = 0;
    while i <= n - m
        invariant
            n == text@.len(),
            wanted@ == part@,
            m == part@.len(),
            0 < m <= n,
            i <= n - m + 1,
            forall|k: int| 0 <= k < i ==> #[trigger] text@.subrange(k, k + m) != part@,
        decreases n - i,
    {
        if occurs_at(text, &wanted, i) {
            assert(text@.subrange(i as int, i as int + part@.len()) == part@);
            return true;
        }
        i = i + 1;
    }
    false
}

} // verus!
