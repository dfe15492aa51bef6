//! Text as the commands read it.
use vstd::prelude::*;

verus! {

/// Whether `part` occurs somewhere in `text`. The empty text occurs everywhere.
pub open spec fn has_substring(text: Seq<char>, part: Seq<char>) -> bool {
    exists|at: int| 0 <= at <= text.len() && part.is_prefix_of(#[trigger] text.skip(at))
}

/// `str::contains` with a text as the pattern: whether it matches a sub-slice.
#[verifier::external_body]
pub(crate) fn contains(text: &str, part: &str) -> (found: bool)
    ensures
        found == has_substring(text@, part@),
{
    text.contains(part)
}

/// `str::strip_prefix` with a text as the pattern: the rest of the text, where it
/// starts with `prefix`.
#[verifier::external_body]
pub(crate) fn strip_prefix<'a>(text: &'a str, prefix: &str) -> (rest: Option<&'a str>)
    ensures
        rest is Some <==> prefix@.is_prefix_of(text@),
        rest matches Some(r) ==> r@ == text@.skip(prefix@.len() as int),
{
    text.strip_prefix(prefix)
}

/// The characters that a branch name may hold and a directory name may not.
pub open spec fn is_special(c: char) -> bool {
    c == '/' || c == '\\' || c == ':' || c == '*' || c == '?' || c == '"' || c == '<' || c == '>'
        || c == '|'
}

/// Whether some character of the text is special.
pub open spec fn has_special(text: Seq<char>) -> bool {
    exists|i: int| 0 <= i < text.len() && is_special(#[trigger] text[i])
}

/// Whether a text holds a character that would not survive in a directory name.
pub fn contains_special_chars(text: &str) -> (found: bool)
    ensures
        found == has_special(text@),
{
    for c in it: text.chars()
        invariant
            it.seq() == text@,
            forall|i: int| 0 <= i < it.index() ==> !is_special(#[trigger] text@[i]),
    {
        if c == '/' || c == '\\' || c == ':' || c == '*' || c == '?' || c == '"' || c == '<' || c
            == '>' || c == '|' {
            assert(is_special(text@[it.index() as int]));
            return true;
        }
    }
    false
}

/// Whether one of the texts is `wanted`.
pub(crate) fn any_is(texts: &Vec<String>, wanted: &String) -> (found: bool)
    ensures
        found == exists|i: int| 0 <= i < texts@.len() && #[trigger] texts@[i]@ == wanted@,
{
    for i in 0..texts.len()
        invariant
            forall|j: int| 0 <= j < i ==> #[trigger] texts@[j]@ != wanted@,
    {
        if texts[i] == *wanted {
            return true;
        }
    }
    false
}

/// The views of a sequence of values, in order.
pub open spec fn views<X: View>(s: Seq<X>) -> Seq<X::V> {
    Seq::new(s.len(), |i: int| s[i]@)
}

/// A copy of a list of texts.
pub(crate) fn copy_texts(texts: &Vec<String>) -> (copy: Vec<String>)
    ensures
        views(copy@) == views(texts@),
{
    let mut copy: Vec<String> = Vec::new();
    for i in 0..texts.len()
        invariant
            copy@.len() == i,
            forall|j: int| 0 <= j < i ==> #[trigger] copy@[j]@ == texts@[j]@,
    {
        copy.push(texts[i].clone());
    }
    assert(views(copy@) =~= views(texts@));
    copy
}

/// A text occurs in another exactly where the other is made of something, the text, and
/// something more.
pub proof fn occurring_is_standing_between(text: Seq<char>, part: Seq<char>)
    ensures
        has_substring(text, part) <==> exists|before: Seq<char>, behind: Seq<char>|
            text == #[trigger] (before + part + behind),
{
    if has_substring(text, part) {
        let at = choose|at: int|
            0 <= at <= text.len() && part.is_prefix_of(#[trigger] text.skip(at));
        let before = text.take(at);
        let behind = text.skip(at).skip(part.len() as int);
        assert(text.skip(at).take(part.len() as int) =~= part);
        assert(text.skip(at) =~= part + behind);
        assert(text =~= before + part + behind);
    }
    if exists|before: Seq<char>, behind: Seq<char>| text == #[trigger] (before + part + behind) {
        let (before, behind) = choose|before: Seq<char>, behind: Seq<char>|
            text == #[trigger] (before + part + behind);
        let at = before.len() as int;
        assert(text.skip(at).take(part.len() as int) =~= part);
        assert(part.is_prefix_of(text.skip(at)));
    }
}

/// A text holds a special character exactly where one of its characters is among
/// `/ \ : * ? " < > |`, wherever it stands.
pub proof fn special_characters_are_these(text: Seq<char>)
    ensures
        has_special(text) <==> exists|i: int|
            0 <= i < text.len() && "/\\:*?\"<>|"@.contains(#[trigger] text[i]),
{
    reveal_strlit("/\\:*?\"<>|");
    let all = "/\\:*?\"<>|"@;
    assert forall|c: char| is_special(c) <==> #[trigger] all.contains(c) by {
        assert(all.len() == 9);
        assert(all[0] == '/' && all[1] == '\\' && all[2] == ':' && all[3] == '*' && all[4] == '?');
        assert(all[5] == '"' && all[6] == '<' && all[7] == '>' && all[8] == '|');
    }
    if has_special(text) {
        let i = choose|i: int| 0 <= i < text.len() && is_special(#[trigger] text[i]);
        assert(all.contains(text[i]));
    }
    if exists|i: int| 0 <= i < text.len() && all.contains(#[trigger] text[i]) {
        let i = choose|i: int| 0 <= i < text.len() && all.contains(#[trigger] text[i]);
        assert(is_special(text[i]));
    }
}

/// There is one view for each value, at its place.
pub proof fn views_stand_for_the_values<X: View>(s: Seq<X>)
    ensures
        views(s).len() == s.len(),
        forall|i: int| 0 <= i < s.len() ==> #[trigger] views(s)[i] == s[i]@,
{
}

} // verus!
