//! The calls that leave this crate. Verus takes each contract here on trust:
//! none of these bodies is proved.

use vstd::prelude::*;
use rand::Rng;

verus! {

/// `String::push` appends the given character to the end of the string.
pub assume_specification[ String::push ](s: &mut String, ch: char)
    ensures
        final(s)@ == old(s)@.push(ch),
;

/// A number drawn by `rand::Rng::gen_range` on the thread's generator from
/// `0..bound`. The range must not be empty, and the number lies in it; which
/// number comes is left open.
#[verifier::external_body]
pub(crate) fn random_below(bound: usize) -> (n: usize)
    requires
        bound > 0,
    ensures
        n < bound,
{
    rand::thread_rng().gen_range(0..bound)
}

/// What `str::to_lowercase` makes of a text.
pub uninterp spec fn lowercase_of(text: Seq<char>) -> Seq<char>;

/// `str::to_lowercase`: the lowercase equivalent of `text`, as new text.
#[verifier::external_body]
pub(crate) fn lowercase(text: &[char]) -> (lowered: Vec<char>)
    ensures
        lowered@ == lowercase_of(text@),
{
    text.iter().collect::<String>().to_lowercase().chars().collect()
}

/// What `urlencoding::decode` makes of a text: the decoded text, or nothing
/// where the decoded bytes are no UTF-8.
pub uninterp spec fn percent_decoded(text: Seq<char>) -> Option<Seq<char>>;

/// `urlencoding::decode`: `text` with its percent escapes resolved, or `None`
/// where the function reports an error.
#[verifier::external_body]
pub(crate) fn percent_decode(text: &[char]) -> (decoded: Option<Vec<char>>)
    ensures
        match decoded {
            Some(plain) => percent_decoded(text@) == Some(plain@),
            None => percent_decoded(text@) is None,
        },
{
    match urlencoding::decode(&text.iter().collect::<String>()) {
        Ok(plain) => Some(plain.chars().collect()),
        Err(_) => None,
    }
}

/// Whether the regular expression `pattern` matches somewhere in `haystack`,
/// as `regex::Regex::is_match` says; nothing where `regex::Regex::new` does
/// not accept `pattern`.
pub uninterp spec fn regex_is_match(pattern: Seq<char>, haystack: Seq<char>) -> Option<bool>;

/// `regex::Regex::new` on `pattern`, then `regex::Regex::is_match` on
/// `haystack`; `None` where the pattern is refused.
#[verifier::external_body]
pub(crate) fn regex_search(pattern: &str, haystack: &str) -> (found: Option<bool>)
    ensures
        found == regex_is_match(pattern@, haystack@),
{
    match regex::Regex::new(pattern) {
        Ok(re) => Some(re.is_match(haystack)),
        Err(_) => None,
    }
}

/// The text of capture group `group` in the leftmost match of the regular
/// expression `pattern` in `haystack`, as `regex::Regex::captures` and
/// `regex::Captures::get` give it; nothing where the pattern is refused, where
/// nothing matches, or where the group took no part in the match.
pub uninterp spec fn regex_capture(pattern: Seq<char>, haystack: Seq<char>, group: int) -> Option<
    Seq<char>,
>;

/// `regex::Regex::new` on `pattern`, `regex::Regex::captures` on `haystack`,
/// then `regex::Captures::get` for `group`.
#[verifier::external_body]
pub(crate) fn regex_group(pattern: &str, haystack: &str, group: usize) -> (text: Option<String>)
    ensures
        match text {
            Some(t) => regex_capture(pattern@, haystack@, group as int) == Some(t@),
            None => regex_capture(pattern@, haystack@, group as int) is None,
        },
{
    let re = regex::Regex::new(pattern).ok()?;
    let found = re.captures(haystack)?;
    Some(found.get(group)?.as_str().to_string())
}

} // verus!
