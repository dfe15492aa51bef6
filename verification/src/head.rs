//! The branch that is checked out in a worktree, as git tells it.
use vstd::prelude::*;
use vstd::utf8;

use crate::text;

verus! {

/// `git2::Reference`, opaque: only the functions below look inside.
#[verifier::external_type_specification]
#[verifier::external_body]
pub struct ExReference<'repo>(git2::Reference<'repo>);

/// The full name of a reference, such as `refs/heads/main`: the bytes that
/// `git2::Reference::name_bytes` returns. A reference keeps its name for as long as
/// it lives.
pub uninterp spec fn reference_name(reference: git2::Reference<'_>) -> Seq<u8>;

/// The bytes of a text.
pub open spec fn bytes(s: Seq<char>) -> Seq<u8> {
    utf8::encode_utf8(s)
}

/// The text that some bytes hold, where they are UTF-8.
pub open spec fn utf8_text(b: Seq<u8>) -> Option<Seq<char>> {
    if utf8::valid_utf8(b) {
        Some(utf8::decode_utf8(b))
    } else {
        None
    }
}

/// The view of a text that may be missing.
pub open spec fn optional_text(t: Option<&str>) -> Option<Seq<char>> {
    match t {
        Some(s) => Some(s@),
        None => None,
    }
}

/// Whether a name starts with a prefix that is given as text.
pub open spec fn starts_with(name: Seq<u8>, prefix: Seq<char>) -> bool {
    bytes(prefix).is_prefix_of(name)
}

/// A name without a prefix that is given as text.
pub open spec fn without(name: Seq<u8>, prefix: Seq<char>) -> Seq<u8> {
    name.skip(bytes(prefix).len() as int)
}

/// The short form of a reference's name: without the part that says what kind of
/// reference it is.
pub open spec fn short_name(name: Seq<u8>) -> Seq<u8> {
    if starts_with(name, "refs/heads/"@) {
        without(name, "refs/heads/"@)
    } else if starts_with(name, "refs/tags/"@) {
        without(name, "refs/tags/"@)
    } else if starts_with(name, "refs/remotes/"@) {
        without(name, "refs/remotes/"@)
    } else if starts_with(name, "refs/"@) {
        without(name, "refs/"@)
    } else {
        name
    }
}

/// `git2::Reference::is_branch`: whether the name is that of a local branch, which is
/// to say that it starts with `refs/heads/`.
#[verifier::external_body]
fn is_branch(reference: &git2::Reference<'_>) -> (answer: bool)
    ensures
        answer == starts_with(reference_name(*reference), "refs/heads/"@),
{
    reference.is_branch()
}

/// `git2::Reference::shorthand`: the short form of the name, where that is UTF-8.
#[verifier::external_body]
fn shorthand<'a>(reference: &'a git2::Reference<'_>) -> (short: Option<&'a str>)
    ensures
        optional_text(short) == utf8_text(short_name(reference_name(*reference))),
{
    reference.shorthand()
}

/// `git2::Reference::name`: the full name, where it is UTF-8.
#[verifier::external_body]
fn name<'a>(reference: &'a git2::Reference<'_>) -> (full: Option<&'a str>)
    ensures
        optional_text(full) == utf8_text(reference_name(*reference)),
{
    reference.name()
}

/// What is said where the branch cannot be told.
pub open spec fn unresolved() -> Seq<char> {
    "Could not resolve branch from HEAD (detached or invalid)"@
}

/// The branch that a HEAD means, by what git says of it: whether it is a branch at
/// all, its short name and its full name. The short name is preferred.
pub open spec fn branch_by(
    is_branch: bool,
    short: Option<Seq<char>>,
    full: Option<Seq<char>>,
) -> Option<Seq<char>> {
    if !is_branch {
        None
    } else if short is Some {
        short
    } else if full is Some && "refs/heads/"@.is_prefix_of(full->0) {
        Some(full->0.skip("refs/heads/"@.len() as int))
    } else {
        None
    }
}

/// The branch that a HEAD with a given name means: what follows `refs/heads/`, where
/// that is UTF-8.
pub open spec fn branch_named(name: Seq<u8>) -> Option<Seq<char>> {
    if starts_with(name, "refs/heads/"@) {
        utf8_text(without(name, "refs/heads/"@))
    } else {
        None
    }
}

/// The branch that a HEAD means, by what git says of it.
pub fn branch_of_head(is_branch: bool, short: Option<&str>, full: Option<&str>) -> (branch: Result<
    String,
    String,
>)
    ensures
        match branch {
            Ok(b) => branch_by(is_branch, optional_text(short), optional_text(full)) == Some(b@),
            Err(e) => branch_by(is_branch, optional_text(short), optional_text(full)) is None && e@
                == unresolved(),
        },
{
    if is_branch {
        if let Some(branch) = short {
            return Ok(branch.to_string());
        }
        if let Some(full) = full {
            if let Some(branch) = text::strip_prefix(full, "refs/heads/") {
                return Ok(branch.to_string());
            }
        }
    }
    Err("Could not resolve branch from HEAD (detached or invalid)".to_string())
}

/// The branch that a worktree's HEAD means, or the text of why there is none.
pub fn resolve_branch_from_worktree_head(head: &git2::Reference<'_>) -> (branch: Result<
    String,
    String,
>)
    ensures
        match branch {
            Ok(b) => branch_named(reference_name(*head)) == Some(b@),
            Err(e) => branch_named(reference_name(*head)) is None && e@ == unresolved(),
        },
{
    proof {
        lemma_branch_by_name(reference_name(*head));
    }
    branch_of_head(is_branch(head), shorthand(head), name(head))
}

/// UTF-8 stays UTF-8 when an ASCII prefix is taken off.
proof fn lemma_ascii_prefix(prefix: Seq<char>, name: Seq<u8>)
    requires
        utf8::is_ascii_chars(prefix),
        bytes(prefix).is_prefix_of(name),
        utf8::valid_utf8(name),
    ensures
        utf8::valid_utf8(without(name, prefix)),
    decreases prefix.len(),
{
    utf8::is_ascii_chars_encode_utf8(prefix);
    let b = bytes(prefix);
    assert(b.len() == prefix.len());
    if prefix.len() == 0 {
        assert(without(name, prefix) =~= name);
    } else {
        let rest = prefix.drop_first();
        assert(utf8::is_ascii_chars(rest)) by {
            assert forall|i: int| 0 <= i < rest.len() implies 0 <= #[trigger] rest[i] < 128 by {
                assert(rest[i] == prefix[i + 1]);
            }
        }
        utf8::is_ascii_chars_encode_utf8(rest);
        assert((prefix[0] as u8) < 128);
        assert(name[0] == b[0]);
        assert(name[0] < 128);
        assert(utf8::pop_first_scalar(name) =~= name.drop_first());
        let tail = name.drop_first();
        assert forall|i: int| 0 <= i < bytes(rest).len() implies bytes(rest)[i] == tail[i] by {
            assert(bytes(rest)[i] == rest[i] as u8);
            assert(b[i + 1] == prefix[i + 1] as u8);
            assert(name[i + 1] == b[i + 1]);
        }
        assert(bytes(rest).is_prefix_of(tail)) by {
            assert(bytes(rest) =~= tail.subrange(0, bytes(rest).len() as int));
        }
        lemma_ascii_prefix(rest, tail);
        assert(without(name, prefix) =~= without(tail, rest));
    }
}

/// What git says of a name determines the branch: the full name is of no help where
/// the short one is not UTF-8.
proof fn lemma_branch_by_name(name: Seq<u8>)
    ensures
        branch_by(
            starts_with(name, "refs/heads/"@),
            utf8_text(short_name(name)),
            utf8_text(name),
        ) == branch_named(name),
{
    reveal_strlit("refs/heads/");
    if starts_with(name, "refs/heads/"@) && utf8::valid_utf8(name) {
        lemma_ascii_prefix("refs/heads/"@, name);
    }
}

/// The bytes of two texts, one after the other, are those of the two put together.
proof fn lemma_bytes_add(a: Seq<char>, b: Seq<char>)
    ensures
        bytes(a + b) == bytes(a) + bytes(b),
    decreases a.len(),
{
    if a.len() == 0 {
        assert(a + b =~= b);
        assert(bytes(a) + bytes(b) =~= bytes(b));
    } else {
        lemma_bytes_add(a.drop_first(), b);
        assert((a + b).drop_first() =~= a.drop_first() + b);
        let first = utf8::encode_scalar(a[0] as u32);
        assert((first + bytes(a.drop_first())) + bytes(b) =~= first + (bytes(a.drop_first())
            + bytes(b)));
    }
}

/// The HEAD of a worktree on a branch means that branch, whatever its name.
pub proof fn head_of_a_branch_means_it(branch: Seq<char>)
    ensures
        branch_named(utf8::encode_utf8("refs/heads/"@ + branch)) == Some(branch),
{
    let prefix = "refs/heads/"@;
    let name = bytes(prefix + branch);
    lemma_bytes_add(prefix, branch);
    assert(bytes(prefix).is_prefix_of(name)) by {
        assert(bytes(prefix) =~= name.subrange(0, bytes(prefix).len() as int));
    }
    assert(without(name, prefix) =~= bytes(branch));
    utf8::encode_utf8_valid_utf8(branch);
    utf8::encode_utf8_decode_utf8(branch);
}

/// A HEAD means a branch only where its name is that of the branch: what it means, put
/// behind `refs/heads/`, is the whole name again.
pub proof fn a_head_means_only_its_branch(name: Seq<u8>)
    ensures
        branch_named(name) matches Some(branch) ==> name == utf8::encode_utf8(
            "refs/heads/"@ + branch,
        ),
{
    if branch_named(name) is Some {
        let prefix = "refs/heads/"@;
        let branch = branch_named(name)->0;
        let rest = without(name, prefix);
        utf8::decode_utf8_encode_utf8(rest);
        lemma_bytes_add(prefix, branch);
        assert(name =~= bytes(prefix) + rest);
    }
}

/// What is no branch means none. Of a branch the short name is taken as it is; without
/// one, what follows `refs/heads/` in the full name; and without that there is none, and
/// it is said so.
pub proof fn the_short_name_comes_first(
    short: Option<Seq<char>>,
    full: Option<Seq<char>>,
    branch: Seq<char>,
)
    ensures
        branch_by(false, short, full) is None,
        branch_by(true, Some(branch), full) == Some(branch),
        branch_by(true, None, Some("refs/heads/"@ + branch)) == Some(branch),
        branch_by(true, None, full) == Some(branch) ==> full == Some("refs/heads/"@ + branch),
        unresolved() == "Could not resolve branch from HEAD (detached or invalid)"@,
{
    let prefix = "refs/heads/"@;
    let whole = prefix + branch;
    assert(prefix.is_prefix_of(whole)) by {
        assert(whole.subrange(0, prefix.len() as int) =~= prefix);
    }
    assert(whole.skip(prefix.len() as int) =~= branch);
    if branch_by(true, None, full) == Some(branch) {
        assert(full->0 =~= whole);
    }
}

/// A text that may be missing is viewed as it is.
pub proof fn an_optional_text_is_viewed_as_it_is(t: &str)
    ensures
        optional_text(Some(t)) == Some(t@),
        optional_text(None) == None::<Seq<char>>,
{
}

} // verus!
