use vstd::prelude::*;

verus! {

/// Whether a character is alphanumeric, exactly as `char::is_alphanumeric`
/// decides it. The set of Unicode letters and digits is not written out
/// here; contracts speak of it through this name.
pub uninterp spec fn alnum(c: char) -> bool;

/// Relies on char::is_alphanumeric: a pure function of the character,
/// true exactly on Unicode letters and digits.
#[verifier::external_body]
pub(crate) fn char_is_alnum(c: char) -> (r: bool)
    ensures
        r == alnum(c),
{
    c.is_alphanumeric()
}

/// A word character: a letter, a digit, or an underscore. An identifier
/// made only of word characters does not need quoting.
pub open spec fn word_char(c: char) -> bool {
    alnum(c) || c == '_'
}

/// A word: every character is a word character.
pub open spec fn word(s: Seq<char>) -> bool {
    forall|i: int| 0 <= i < s.len() ==> word_char(#[trigger] s[i])
}

/// Decide whether every character of `s` is a word character.
pub fn is_word(s: &str) -> (r: bool)
    ensures
        r == word(s@),
{
    let n = s.unicode_len();
    let mut i: usize = 0;
    while i < n
        invariant
            0 <= i <= n,
            n == s@.len(),
            forall|j: int| 0 <= j < i ==> word_char(#[trigger] s@[j]),
        decreases n - i,
    {
        let c = s.get_char(i);
        if !(char_is_alnum(c) || c == '_') {
            return false;
        }
        i = i + 1;
    }
    true
}

} // verus!
