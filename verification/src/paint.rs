use vstd::prelude::*;
use crate::table::VarKey;

verus! {

/// The letters that stand for variables in printed types: a hash map from variables to the
/// place of their letter.
#[verifier::external_body]
pub struct AliasMap {
    inner: hashbrown::HashMap<VarKey, usize>,
}

/// What a map of aliases holds: the place of the letter stored under each key.
pub uninterp spec fn alias_contents(aliases: AliasMap) -> Map<VarKey, usize>;

/// The contents of a map of aliases that holds nothing.
pub open spec fn no_aliases() -> Map<VarKey, usize> {
    Map::empty()
}

/// `hashbrown::HashMap::new`: the map it creates is empty.
#[verifier::external_body]
pub(crate) fn alias_new() -> (aliases: AliasMap)
    ensures
        alias_contents(aliases) == no_aliases(),
{
    AliasMap { inner: hashbrown::HashMap::new() }
}

/// `hashbrown::HashMap::get`: the value stored under the key, if there is one.
#[verifier::external_body]
pub(crate) fn alias_get(aliases: &AliasMap, key: VarKey) -> (found: Option<usize>)
    ensures
        found.is_some() == alias_contents(*aliases).contains_key(key),
        found.is_some() ==> found.unwrap() == alias_contents(*aliases)[key],
{
    aliases.inner.get(&key).copied()
}

/// `hashbrown::HashMap::insert`: the value is stored under the key, in place of any value that
/// was there, and the other keys keep theirs.
#[verifier::external_body]
pub(crate) fn alias_insert(aliases: &mut AliasMap, key: VarKey, place: usize)
    ensures
        alias_contents(*final(aliases)) == alias_contents(*old(aliases)).insert(key, place),
{
    aliases.inner.insert(key, place);
}

/// `itertools::Itertools::join` on the texts of a list: the texts one after the other, with
/// the separator between each two; nothing for an empty list.
#[verifier::external_body]
pub(crate) fn join_texts(parts: &Vec<String>, separator: &str) -> (joined: String)
    ensures
        joined@ == joined_text(texts_of(parts@), separator@),
{
    itertools::Itertools::join(&mut parts.iter(), separator)
}

/// Whether a text holds the character that starts an escape sequence of a terminal.
pub open spec fn holds_escape(text: Seq<char>) -> bool {
    text.contains('\u{1b}')
}

/// Whether a painted text shows a text: it is the text itself, or the text between what
/// switches a style on and what switches it off again.
pub open spec fn shows(painted: Seq<char>, text: Seq<char>) -> bool {
    exists|lead: Seq<char>, tail: Seq<char>| painted == lead + text + tail
}

/// `colored::Colorize::blue` and `bold`, written out: the text as a terminal shows it in bold
/// blue, or the text itself where colors are off. Whether colors are on depends on the
/// environment. Either way a text without an escape character stands in the result as it
/// is: colored changes only what follows a reset sequence inside the text.
#[verifier::external_body]
pub(crate) fn paint_blue_bold(text: String) -> (painted: String)
    ensures
        !holds_escape(text@) ==> shows(painted@, text@),
{
    colored::Colorize::bold(colored::Colorize::blue(text.as_str())).to_string()
}

/// `colored::Colorize::bright_black` and `bold`, written out. Which style the result has
/// depends on the environment; a text without an escape character stands in it as it is.
#[verifier::external_body]
pub(crate) fn paint_grey_bold(text: String) -> (painted: String)
    ensures
        !holds_escape(text@) ==> shows(painted@, text@),
{
    colored::Colorize::bold(colored::Colorize::bright_black(text.as_str())).to_string()
}

/// `colored::Colorize::bright_yellow`, written out. Which style the result has depends on the
/// environment; a text without an escape character stands in it as it is.
#[verifier::external_body]
pub(crate) fn paint_yellow(text: &str) -> (painted: String)
    ensures
        !holds_escape(text@) ==> shows(painted@, text@),
{
    colored::Colorize::bright_yellow(text).to_string()
}

/// `colored::Colorize::bright_green`, written out. Which style the result has depends on the
/// environment; a text without an escape character stands in it as it is.
#[verifier::external_body]
pub(crate) fn paint_green(text: &str) -> (painted: String)
    ensures
        !holds_escape(text@) ==> shows(painted@, text@),
{
    colored::Colorize::bright_green(text).to_string()
}

/// `colored::Colorize::bright_red`, written out. Which style the result has depends on the
/// environment; a text without an escape character stands in it as it is.
#[verifier::external_body]
pub(crate) fn paint_red(text: &str) -> (painted: String)
    ensures
        !holds_escape(text@) ==> shows(painted@, text@),
{
    colored::Colorize::bright_red(text).to_string()
}

/// The values of a list of texts.
pub open spec fn texts_of(parts: Seq<String>) -> Seq<Seq<char>> {
    Seq::new(parts.len(), |i: int| parts[i]@)
}

/// The texts of a list one after the other, with the separator between each two.
pub open spec fn joined_text(parts: Seq<Seq<char>>, separator: Seq<char>) -> Seq<char>
    decreases parts.len(),
{
    if parts.len() == 0 {
        Seq::empty()
    } else if parts.len() == 1 {
        parts[0]
    } else {
        joined_text(parts.drop_last(), separator) + separator + parts.last()
    }
}

} // verus!
