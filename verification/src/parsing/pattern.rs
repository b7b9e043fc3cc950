use vstd::prelude::*;

verus! {

/// What a group of a pattern holds in the leftmost match of the pattern in a text: nothing
/// where the pattern is refused, where it matches nowhere, or where the group took no part.
pub uninterp spec fn group_in_match(pattern: Seq<char>, group: nat, haystack: Seq<char>) -> Option<
    Seq<char>,
>;

/// The value of a text that may be missing.
pub open spec fn text_view(text: Option<String>) -> Option<Seq<char>> {
    match text {
        Some(text) => Some(text@),
        None => None,
    }
}

/// `regex::Regex::new`, `Regex::captures` and `Captures::get`: the text that the group of
/// that number holds in the leftmost match of the pattern. Nothing is claimed of which text
/// that is; only that the same pattern, number and text give the same.
#[verifier::external_body]
pub(crate) fn captured_group(pattern: &str, group: usize, haystack: &str) -> (out: Option<String>)
    ensures
        text_view(out) == group_in_match(pattern@, group as nat, haystack@),
{
    match regex::Regex::new(pattern) {
        Ok(compiled) => match compiled.captures(haystack) {
            Some(captures) => match captures.get(group) {
                Some(found) => Some(found.as_str().to_string()),
                None => None,
            },
            None => None,
        },
        Err(_) => None,
    }
}

} // verus!
