//! Regular-expression matching, through the `regex` crate.

use vstd::prelude::*;
use crate::text::{all_upper_alphanumeric, digits_between, is_ascii_upper};

verus! {

/// What compiling `pattern` with `regex::Regex::new` and asking `is_match`
/// on `text` gives: nothing when the pattern does not compile.
pub uninterp spec fn regex_outcome(pattern: Seq<char>, text: Seq<char>) -> Option<bool>;

/// What the `regex` crate's syntax gives for the aggregator's patterns on a
/// text of ASCII digits and capital letters alone: `^` and `$` stand for
/// the two ends of the text, `\d` takes an ASCII digit and no letter,
/// `[A-Z]` a capital letter, `[A-Z0-9]` either, a letter itself alone,
/// and `{m}`, `{m,n}` and `{m,}` count repetitions. For any other pattern
/// nothing is said (`None`).
pub open spec fn upper_alphanumeric_outcome(pattern: Seq<char>, text: Seq<char>) -> Option<bool> {
    let n = text.len() as int;
    if pattern == "^1Z[A-Z0-9]{16}$"@ {
        Some(n == 18 && text[0] == '1' && text[1] == 'Z')
    } else if pattern == "^\\d{12}$|^\\d{15}$"@ {
        Some(digits_between(text, 0, n) && (n == 12 || n == 15))
    } else if pattern == "^\\d{20,22}$|^9400\\d{16,}$"@ {
        Some(
            digits_between(text, 0, n) && ((20 <= n && n <= 22) || (n >= 20 && text.subrange(0, 4)
                == "9400"@)),
        )
    } else if pattern == "^\\d{10}$|^JJD\\d{12,}$"@ {
        Some(
            (digits_between(text, 0, n) && n == 10) || (n >= 15 && text.subrange(0, 3) == "JJD"@
                && digits_between(text, 3, n)),
        )
    } else if pattern == "^[A-Z]{2}\\d{9}CA$"@ {
        Some(
            n == 13 && is_ascii_upper(text[0]) && is_ascii_upper(text[1]) && digits_between(text, 2, 11)
                && text[11] == 'C' && text[12] == 'A',
        )
    } else if pattern == "^C\\d{14}$|^D\\d{14}$"@ {
        Some(n == 15 && (text[0] == 'C' || text[0] == 'D') && digits_between(text, 1, 15))
    } else {
        None
    }
}

/// Calls `regex::Regex::new(pattern)` and, when it compiles, `is_match(text)`.
/// Besides naming the outcome, the contract states it for the aggregator's
/// patterns on a text of ASCII digits and capitals alone, as the crate's
/// documented syntax gives it (see `upper_alphanumeric_outcome`).
#[verifier::external_body]
pub(crate) fn regex_match(pattern: &str, text: &str) -> (r: Option<bool>)
    ensures
        r == regex_outcome(pattern@, text@),
        all_upper_alphanumeric(text@) && upper_alphanumeric_outcome(pattern@, text@) is Some ==> r
            == upper_alphanumeric_outcome(pattern@, text@),
{
    match regex::Regex::new(pattern) {
        Ok(re) => Some(re.is_match(text)),
        Err(_) => None,
    }
}

/// `pattern` compiles and matches `text`.
pub open spec fn pattern_matches(pattern: Seq<char>, text: Seq<char>) -> bool {
    regex_outcome(pattern, text) == Some(true)
}

/// Which of `patterns` match `text` (a pattern that does not compile matches nothing).
pub open spec fn matches_of(patterns: Seq<Seq<char>>, text: Seq<char>) -> Seq<bool> {
    Seq::new(patterns.len(), |i: int| pattern_matches(patterns[i], text))
}

/// For each pattern, in order, whether it compiles and matches `text`.
pub fn match_each(patterns: &Vec<&str>, text: &str) -> (r: Vec<bool>)
    ensures
        r@ == matches_of(patterns@.map_values(|p: &str| p@), text@),
        forall|i: int|
            0 <= i < r@.len() && all_upper_alphanumeric(text@) && upper_alphanumeric_outcome(patterns@[i]@, text@) is Some
                ==> upper_alphanumeric_outcome(patterns@[i]@, text@) == Some(#[trigger] r@[i]),
{
    let ghost pats = patterns@.map_values(|p: &str| p@);
    let mut r: Vec<bool> = Vec::new();
    let mut i: usize = 0;
    while i < patterns.len()
        invariant
            i <= patterns.len(),
            pats == patterns@.map_values(|p: &str| p@),
            r@ == matches_of(pats, text@).subrange(0, i as int),
            forall|j: int|
                0 <= j < r@.len() && all_upper_alphanumeric(text@) && upper_alphanumeric_outcome(patterns@[j]@, text@) is Some
                    ==> upper_alphanumeric_outcome(patterns@[j]@, text@) == Some(#[trigger] r@[j]),
        decreases patterns.len() - i,
    {
        let m = regex_match(patterns[i], text);
        let hit = match m {
            Some(b) => b,
            None => false,
        };
        r.push(hit);
        i = i + 1;
        assert(r@ =~= matches_of(pats, text@).subrange(0, i as int));
    }
    assert(r@ =~= matches_of(pats, text@));
    r
}

} // verus!
