//! How words are matched.
//!
//! A keyword is accepted in three spellings: as it stands in lower case, with
//! its first letter in upper case, or all in upper case. Nothing else
//! matches: `add`, `Add` and `ADD` spell the keyword `add`, `aDD` does not.
//!
//! An answer is accepted in any mix of upper and lower case.

use crate::encoding::same_text;
use vstd::prelude::*;
use vstd::string::is_ascii_spec_bytes;
use vstd::utf8::is_ascii_chars;

verus! {

/// The upper-case form of a lower-case ASCII letter; any other character
/// as it is.
pub open spec fn upper(c: char) -> char {
    if 'a' <= c <= 'z' {
        ((c as u8) - 32) as char
    } else {
        c
    }
}

/// `word` with every letter in upper case.
pub open spec fn uppercase(word: Seq<char>) -> Seq<char> {
    word.map_values(|c: char| upper(c))
}

/// `word` with its first letter in upper case.
pub open spec fn titlecase(word: Seq<char>) -> Seq<char> {
    if word.len() == 0 {
        word
    } else {
        word.update(0, upper(word[0]))
    }
}

/// `text` is one of the accepted spellings of the lower-case `word`.
pub open spec fn spells(text: Seq<char>, word: Seq<char>) -> bool {
    text == word || text == titlecase(word) || text == uppercase(word)
}

/// No text spells two words that differ at some place in whatever case
/// their letters there stand.
pub proof fn lemma_spells_apart(text: Seq<char>, a: Seq<char>, b: Seq<char>, k: int)
    requires
        0 <= k < a.len(),
        k < b.len(),
        a[k] != b[k],
        a[k] != upper(b[k]),
        upper(a[k]) != b[k],
        upper(a[k]) != upper(b[k]),
    ensures
        !(spells(text, a) && spells(text, b)),
{
    if spells(text, a) && spells(text, b) {
        assert(text[k] == b[k] || text[k] == upper(b[k]));
    }
}

/// The lower-case form of an upper-case ASCII letter; any other character
/// as it is.
pub open spec fn lower(c: char) -> char {
    if 'A' <= c <= 'Z' {
        ((c as u8) + 32) as char
    } else {
        c
    }
}

/// `text` with every letter in lower case.
pub open spec fn lowercase(text: Seq<char>) -> Seq<char> {
    text.map_values(|c: char| lower(c))
}

/// `text` is the lower-case `word` in some mix of upper and lower case.
pub open spec fn says(text: Seq<char>, word: Seq<char>) -> bool {
    lowercase(text) == word
}

/// Whether `text` is the lower-case ASCII `word` in some mix of upper and
/// lower case.
pub(crate) fn said_in_any_case(text: &str, word: &str) -> (yes: bool)
    requires
        is_ascii_chars(word@),
    ensures
        yes == says(text@, word@),
{
    if !text.is_ascii() {
        proof {
            let i = choose|i: int|
                0 <= i < text@.len() && !('\0' <= #[trigger] text@[i] && text@[i] <= '\u{7f}');
            if text@.len() == word@.len() {
                assert('\0' <= word@[i] <= '\u{7f}');
            }
        }
        return false;
    }
    let t = text.as_bytes();
    let w = word.as_bytes();
    proof {
        is_ascii_spec_bytes(text);
        is_ascii_spec_bytes(word);
    }
    if t.len() != w.len() {
        return false;
    }
    let mut i: usize = 0;
    while i < t.len()
        invariant
            i <= t.len(),
            t@.len() == text@.len(),
            w@.len() == word@.len(),
            t@.len() == w@.len(),
            forall|j: int| 0 <= j < t@.len() ==> t@[j] == text@[j] as u8,
            forall|j: int| 0 <= j < w@.len() ==> w@[j] == word@[j] as u8,
            forall|j: int| 0 <= j < text@.len() ==> '\0' <= #[trigger] text@[j] <= '\u{7f}',
            forall|j: int| 0 <= j < word@.len() ==> '\0' <= #[trigger] word@[j] <= '\u{7f}',
            forall|j: int| 0 <= j < i ==> lower(text@[j]) == word@[j],
        decreases t.len() - i,
    {
        let b = t[i];
        let folded = if 65u8 <= b && b <= 90u8 {
            b + 32u8
        } else {
            b
        };
        if folded != w[i] {
            return false;
        }
        i += 1;
    }
    assert(lowercase(text@) =~= word@);
    true
}

/// Whether `text` spells `word`, given the three spellings of `word`.
pub(crate) fn spelled(text: &str, word: &str, title: &str, upper: &str) -> (yes: bool)
    requires
        title@ == titlecase(word@),
        upper@ == uppercase(word@),
    ensures
        yes == spells(text@, word@),
{
    same_text(text, word) || same_text(text, title) || same_text(text, upper)
}

} // verus!
