//! Fuzzy matching of palette commands.

use fuzzy_matcher::skim::SkimMatcherV2;
use fuzzy_matcher::FuzzyMatcher;
use vstd::prelude::*;

verus! {

/// Whether a character is an ASCII upper-case letter.
pub open spec fn is_ascii_upper(c: char) -> bool {
    'A' <= c <= 'Z'
}

/// The ASCII lower-case form of a character (others unchanged).
pub open spec fn ascii_lower(c: char) -> char {
    if is_ascii_upper(c) {
        ((c as u32) + 32) as char
    } else {
        c
    }
}

/// Character equality as the matcher applies it: exact when matching case,
/// else up to ASCII case.
pub open spec fn match_char(a: char, b: char, case_sensitive: bool) -> bool {
    if case_sensitive {
        a == b
    } else {
        ascii_lower(a) == ascii_lower(b)
    }
}

/// Whether the pattern's characters occur in order in the choice, each
/// matched to the first fitting character after the previous match.
pub open spec fn in_order(choice: Seq<char>, pattern: Seq<char>, case_sensitive: bool) -> bool
    decreases choice.len(),
{
    if pattern.len() == 0 {
        true
    } else if choice.len() == 0 {
        false
    } else if match_char(choice[0], pattern[0], case_sensitive) {
        in_order(choice.drop_first(), pattern.drop_first(), case_sensitive)
    } else {
        in_order(choice.drop_first(), pattern, case_sensitive)
    }
}

/// Whether the default skim matcher accepts `choice` for `pattern`: an
/// empty pattern always matches; otherwise the pattern must occur in order
/// in the choice, case-sensitively exactly when it holds an ASCII
/// upper-case letter.
pub open spec fn skim_accepts(choice: Seq<char>, pattern: Seq<char>) -> bool {
    pattern.len() == 0 || in_order(
        choice,
        pattern,
        exists|i: int| 0 <= i < pattern.len() && is_ascii_upper(#[trigger] pattern[i]),
    )
}

/// `SkimMatcherV2::default().fuzzy_match(choice, pattern).is_some()`. The
/// matcher's source returns a score for an empty pattern, and otherwise
/// exactly when its first pass (`cheap_matches`) finds the pattern's
/// characters in order, comparing with `==` when the pattern holds an ASCII
/// upper-case letter and with `eq_ignore_ascii_case` otherwise; the score
/// itself is not used here.
#[verifier::external_body]
pub(crate) fn fuzzy_accepts(choice: &str, pattern: &str) -> (r: bool)
    ensures
        r == skim_accepts(choice@, pattern@),
{
    SkimMatcherV2::default().fuzzy_match(choice, pattern).is_some()
}

} // verus!
