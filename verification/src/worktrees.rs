//! Worktrees as the user sees them: named, offered for choice, and found by name.
use std::path::PathBuf;
use vstd::prelude::*;

use crate::paths;
use crate::text;

verus! {

/// A worktree: the repository it belongs to, its branch, and where it is.
#[derive(Debug, PartialEq, Eq)]
pub struct Worktree<T> {
    pub repo: T,
    pub branch: T,
    pub path: PathBuf,
}

/// The model of a worktree.
pub type WorktreeView = Worktree<Seq<char>>;

impl View for Worktree<String> {
    type V = WorktreeView;

    open spec fn view(&self) -> WorktreeView {
        Worktree { repo: self.repo@, branch: self.branch@, path: self.path }
    }
}

impl Worktree<String> {
    /// A copy of the worktree's description.
    pub fn duplicate(&self) -> (copy: Self)
        ensures
            copy@ == self@,
    {
        Worktree {
            repo: self.repo.clone(),
            branch: self.branch.clone(),
            path: self.path.clone(),
        }
    }
}

// ---------------------------------------------------------------------------
// Completions
// ---------------------------------------------------------------------------

/// The branches of the worktrees, in order.
pub open spec fn branches(worktrees: Seq<WorktreeView>) -> Seq<Seq<char>> {
    worktrees.map_values(|w: WorktreeView| w.branch)
}

/// The lines to offer for completion: the branch of each worktree.
pub fn list_worktree_completions(worktrees: &Vec<Worktree<String>>) -> (lines: Vec<String>)
    ensures
        text::views(lines@) == branches(text::views(worktrees@)),
{
    let mut lines: Vec<String> = Vec::new();
    for i in 0..worktrees.len()
        invariant
            lines@.len() == i,
            forall|j: int| 0 <= j < i ==> #[trigger] lines@[j]@ == worktrees@[j].branch@,
    {
        lines.push(worktrees[i].branch.clone());
    }
    assert(text::views(lines@) =~= branches(text::views(worktrees@)));
    lines
}

// ---------------------------------------------------------------------------
// Choosing
// ---------------------------------------------------------------------------

/// A question with the options to choose from.
#[derive(Debug, PartialEq, Eq)]
pub struct Menu<T, L> {
    pub prompt: T,
    pub options: L,
}

/// The model of a menu.
pub type MenuView = Menu<Seq<char>, Seq<Seq<char>>>;

impl View for Menu<String, Vec<String>> {
    type V = MenuView;

    open spec fn view(&self) -> MenuView {
        Menu { prompt: self.prompt@, options: text::views(self.options@) }
    }
}

/// How a worktree reads among the options: `repo/branch (path)`.
pub open spec fn option_text(w: WorktreeView) -> Seq<char> {
    w.repo + "/"@ + w.branch + " ("@ + paths::path_display(w.path) + ")"@
}

/// The menu over some worktrees: one option for each, in order. There is none where
/// there is nothing to choose from.
pub open spec fn menu(prompt: Seq<char>, worktrees: Seq<WorktreeView>) -> Option<MenuView> {
    if worktrees.len() == 0 {
        None
    } else {
        Some(Menu { prompt, options: worktrees.map_values(|w: WorktreeView| option_text(w)) })
    }
}

/// How a worktree reads among the options.
pub fn describe(worktree: &Worktree<String>) -> (option: String)
    ensures
        option@ == option_text(worktree@),
{
    worktree.repo.clone().concat("/").concat(worktree.branch.as_str()).concat(" (").concat(
        paths::display(&worktree.path).as_str(),
    ).concat(")")
}

/// The menu over some worktrees, under a given prompt.
fn offer(prompt: &str, worktrees: &Vec<Worktree<String>>) -> (offered: Option<
    Menu<String, Vec<String>>,
>)
    ensures
        offered is Some <==> menu(prompt@, text::views(worktrees@)) is Some,
        offered matches Some(m) ==> menu(prompt@, text::views(worktrees@)) == Some(m@),
{
    if worktrees.len() == 0 {
        return None;
    }
    let mut options: Vec<String> = Vec::new();
    for i in 0..worktrees.len()
        invariant
            options@.len() == i,
            forall|j: int| 0 <= j < i ==> #[trigger] options@[j]@ == option_text(worktrees@[j]@),
    {
        options.push(describe(&worktrees[i]));
    }
    assert(text::views(options@) =~= text::views(worktrees@).map_values(
        |w: WorktreeView| option_text(w),
    ));
    Some(Menu { prompt: prompt.to_string(), options })
}

/// What to ask a user who wants to jump, or nothing where there are no worktrees.
pub fn select_worktree_interactive(worktrees: &Vec<Worktree<String>>) -> (offered: Option<
    Menu<String, Vec<String>>,
>)
    ensures
        offered is Some <==> worktrees@.len() > 0,
        offered matches Some(m) ==> menu("Jump to worktree:"@, text::views(worktrees@)) == Some(m@),
{
    offer("Jump to worktree:", worktrees)
}

/// What to ask a user who wants to remove a worktree, or nothing where there are none.
pub fn select_worktree_for_removal(worktrees: &Vec<Worktree<String>>) -> (offered: Option<
    Menu<String, Vec<String>>,
>)
    ensures
        offered is Some <==> worktrees@.len() > 0,
        offered matches Some(m) ==> menu("Select worktree to remove:"@, text::views(worktrees@))
            == Some(m@),
{
    offer("Select worktree to remove:", worktrees)
}

// ---------------------------------------------------------------------------
// Finding by name
// ---------------------------------------------------------------------------

/// What a search by name comes to. `L` is a list of worktrees.
#[derive(Debug, PartialEq, Eq)]
pub enum Lookup<L> {
    /// One worktree is meant: the one at this path.
    Found(PathBuf),
    /// None is meant.
    Missing,
    /// Any of these may be meant.
    Ambiguous(L),
}

/// The model of a lookup.
pub type LookupView = Lookup<Seq<WorktreeView>>;

impl View for Lookup<Vec<Worktree<String>>> {
    type V = LookupView;

    open spec fn view(&self) -> LookupView {
        match self {
            Lookup::Found(path) => Lookup::Found(*path),
            Lookup::Missing => Lookup::Missing,
            Lookup::Ambiguous(worktrees) => Lookup::Ambiguous(text::views(worktrees@)),
        }
    }
}

/// Being of the branch `target`.
pub open spec fn is_exact(target: Seq<char>) -> spec_fn(WorktreeView) -> bool {
    |w: WorktreeView| w.branch == target
}

/// Being of a branch in which `target` occurs.
pub open spec fn is_partial(target: Seq<char>) -> spec_fn(WorktreeView) -> bool {
    |w: WorktreeView| text::has_substring(w.branch, target)
}

/// The worktrees whose branch is `target`.
pub open spec fn exact_matches(worktrees: Seq<WorktreeView>, target: Seq<char>) -> Seq<
    WorktreeView,
> {
    worktrees.filter(is_exact(target))
}

/// The worktrees in whose branch `target` occurs.
pub open spec fn partial_matches(worktrees: Seq<WorktreeView>, target: Seq<char>) -> Seq<
    WorktreeView,
> {
    worktrees.filter(is_partial(target))
}

/// Which worktree a name means: the first whose branch is the name; failing that,
/// the only one in whose branch the name occurs.
pub open spec fn lookup(worktrees: Seq<WorktreeView>, target: Seq<char>) -> LookupView {
    let exact = exact_matches(worktrees, target);
    let partial = partial_matches(worktrees, target);
    if exact.len() > 0 {
        Lookup::Found(exact[0].path)
    } else if partial.len() == 0 {
        Lookup::Missing
    } else if partial.len() == 1 {
        Lookup::Found(partial[0].path)
    } else {
        Lookup::Ambiguous(partial)
    }
}

/// Finds the worktree that a name means.
pub fn find_worktree_by_name(worktrees: &Vec<Worktree<String>>, target: &str) -> (found: Lookup<
    Vec<Worktree<String>>,
>)
    ensures
        found@ == lookup(text::views(worktrees@), target@),
{
    let ghost all = text::views(worktrees@);
    let wanted: String = target.to_string();
    let ghost exact = is_exact(target@);
    assert(all.take(0).filter(exact) =~= Seq::<WorktreeView>::empty()) by {
        reveal(Seq::filter);
    }
    for i in 0..worktrees.len()
        invariant
            all == text::views(worktrees@),
            exact == is_exact(target@),
            wanted@ == target@,
            all.take(i as int).filter(exact).len() == 0,
    {
        proof {
            lemma_filter_take(all, exact, i as int);
        }
        if worktrees[i].branch == wanted {
            proof {
                let seen = all.take(i + 1).filter(exact);
                lemma_filter_prefix(all, exact, i + 1);
                assert(seen =~= seq![all[i as int]]);
                assert(all.filter(exact)[0] == seen[0]);
            }
            return Lookup::Found(worktrees[i].path.clone());
        }
    }
    assert(all.take(all.len() as int) =~= all);

    let ghost partial = is_partial(target@);
    let mut matches: Vec<Worktree<String>> = Vec::new();
    assert(all.take(0).filter(partial) =~= Seq::<WorktreeView>::empty()) by {
        reveal(Seq::filter);
    }
    assert(text::views(matches@) =~= all.take(0).filter(partial));
    for i in 0..worktrees.len()
        invariant
            all == text::views(worktrees@),
            partial == is_partial(target@),
            text::views(matches@) == all.take(i as int).filter(partial),
    {
        proof {
            lemma_filter_take(all, partial, i as int);
        }
        let ghost before = matches@;
        if text::contains(worktrees[i].branch.as_str(), target) {
            matches.push(worktrees[i].duplicate());
            assert(text::views(matches@) =~= text::views(before).push(all[i as int]));
        }
    }
    assert(all.take(all.len() as int) =~= all);
    if matches.len() == 0 {
        Lookup::Missing
    } else if matches.len() == 1 {
        assert(text::views(matches@)[0] == matches@[0]@);
        Lookup::Found(matches[0].path.clone())
    } else {
        Lookup::Ambiguous(matches)
    }
}

/// One more element is filtered on its own.
proof fn lemma_filter_take<A>(s: Seq<A>, pred: spec_fn(A) -> bool, i: int)
    requires
        0 <= i < s.len(),
    ensures
        s.take(i + 1).filter(pred) == if pred(s[i]) {
            s.take(i).filter(pred).push(s[i])
        } else {
            s.take(i).filter(pred)
        },
{
    reveal(Seq::filter);
    assert(s.take(i + 1).drop_last() =~= s.take(i));
    assert(s.take(i + 1).last() == s[i]);
}

/// Filtering a prefix gives a prefix of the filtered whole.
proof fn lemma_filter_prefix<A>(s: Seq<A>, pred: spec_fn(A) -> bool, i: int)
    requires
        0 <= i <= s.len(),
    ensures
        s.filter(pred) == s.take(i).filter(pred) + s.skip(i).filter(pred),
{
    assert(s =~= s.take(i) + s.skip(i));
    Seq::filter_distributes_over_add(s.take(i), s.skip(i), pred);
}

// ---------------------------------------------------------------------------
// What holds of them
// ---------------------------------------------------------------------------

/// What a filter keeps stood at the places `kept`, in this order, and nowhere else does
/// the predicate hold.
pub(crate) proof fn lemma_filter_places<A>(s: Seq<A>, pred: spec_fn(A) -> bool) -> (kept: Seq<int>)
    ensures
        kept.len() == s.filter(pred).len(),
        forall|k: int|
            0 <= k < kept.len() ==> 0 <= #[trigger] kept[k] < s.len() && s.filter(pred)[k]
                == s[kept[k]] && pred(s[kept[k]]),
        forall|k: int, l: int| 0 <= k < l < kept.len() ==> #[trigger] kept[k] < #[trigger] kept[l],
        forall|i: int| 0 <= i < s.len() && pred(s[i]) ==> #[trigger] kept.contains(i),
    decreases s.len(),
{
    reveal(Seq::filter);
    if s.len() == 0 {
        Seq::empty()
    } else {
        let rest = s.drop_last();
        let last = s.len() - 1;
        let before = lemma_filter_places(rest, pred);
        let kept = if pred(s.last()) {
            before.push(last)
        } else {
            before
        };
        assert forall|k: int| 0 <= k < kept.len() implies 0 <= #[trigger] kept[k] < s.len()
            && s.filter(pred)[k] == s[kept[k]] && pred(s[kept[k]]) by {
            if k < before.len() {
                assert(kept[k] == before[k] && rest[before[k]] == s[before[k]]);
            }
        }
        assert forall|k: int, l: int| 0 <= k < l < kept.len() implies #[trigger] kept[k]
            < #[trigger] kept[l] by {
            assert(kept[k] == before[k]);
            if l < before.len() {
                assert(kept[l] == before[l]);
            }
        }
        assert forall|i: int| 0 <= i < s.len() && pred(s[i]) implies #[trigger] kept.contains(i) by {
            if i < last {
                assert(rest[i] == s[i]);
                assert(before.contains(i));
                let k = choose|k: int| 0 <= k < before.len() && before[k] == i;
                assert(kept[k] == i);
            } else {
                assert(kept[before.len() as int] == i);
            }
        }
        kept
    }
}

/// There are as many completions as worktrees, and each is the branch of the worktree at
/// its place.
pub proof fn every_branch_is_a_completion(worktrees: Seq<WorktreeView>)
    ensures
        branches(worktrees).len() == worktrees.len(),
        forall|i: int|
            0 <= i < worktrees.len() ==> #[trigger] branches(worktrees)[i] == worktrees[i].branch,
{
}

/// A menu has as many options as there are worktrees, however many there are, and each
/// reads `repo/branch (path)` of the worktree at its place. Only over no worktrees there
/// is no menu.
pub proof fn every_worktree_is_an_option(prompt: Seq<char>, worktrees: Seq<WorktreeView>)
    ensures
        worktrees.len() == 0 ==> menu(prompt, worktrees) is None,
        worktrees.len() > 0 ==> (menu(prompt, worktrees) matches Some(offered) && {
            &&& offered.prompt == prompt
            &&& offered.options.len() == worktrees.len()
            &&& forall|i: int|
                0 <= i < worktrees.len() ==> #[trigger] offered.options[i] == worktrees[i].repo
                    + "/"@ + worktrees[i].branch + " ("@ + paths::path_display(worktrees[i].path)
                    + ")"@
        }),
{
}

/// A name that is the branch of a worktree means the first such worktree, whatever
/// other branches it occurs in.
pub proof fn a_branch_means_its_first_worktree(
    worktrees: Seq<WorktreeView>,
    target: Seq<char>,
    first: int,
)
    requires
        0 <= first < worktrees.len(),
        worktrees[first].branch == target,
        forall|i: int| 0 <= i < first ==> (#[trigger] worktrees[i]).branch != target,
    ensures
        lookup(worktrees, target) == Lookup::<Seq<WorktreeView>>::Found(worktrees[first].path),
{
    let kept = lemma_filter_places(worktrees, is_exact(target));
    assert(kept.contains(first));
    let k = choose|k: int| 0 <= k < kept.len() && kept[k] == first;
    assert(kept[0] <= kept[k]);
    assert(worktrees[kept[0]].branch == target);
}

/// Where no branch is the name, and exactly one worktree has a branch in which the name
/// occurs, the name means that worktree, whatever the name is made of.
pub proof fn a_single_match_is_meant(worktrees: Seq<WorktreeView>, target: Seq<char>, only: int)
    requires
        0 <= only < worktrees.len(),
        text::has_substring(worktrees[only].branch, target),
        forall|i: int| 0 <= i < worktrees.len() ==> (#[trigger] worktrees[i]).branch != target,
        forall|i: int|
            0 <= i < worktrees.len() && i != only ==> !text::has_substring(
                (#[trigger] worktrees[i]).branch,
                target,
            ),
    ensures
        lookup(worktrees, target) == Lookup::<Seq<WorktreeView>>::Found(worktrees[only].path),
{
    lemma_no_exact(worktrees, target);
    let kept = lemma_filter_places(worktrees, is_partial(target));
    assert(kept.contains(only));
    assert forall|k: int| 0 <= k < kept.len() implies #[trigger] kept[k] == only by {
        assert(text::has_substring(worktrees[kept[k]].branch, target));
    }
    if kept.len() > 1 {
        assert(kept[0] < kept[1]);
    }
    assert(kept[0] == only);
}

/// Where no branch is the name, nothing is an exact match.
proof fn lemma_no_exact(worktrees: Seq<WorktreeView>, target: Seq<char>)
    requires
        forall|i: int| 0 <= i < worktrees.len() ==> (#[trigger] worktrees[i]).branch != target,
    ensures
        exact_matches(worktrees, target).len() == 0,
{
    let kept = lemma_filter_places(worktrees, is_exact(target));
    if kept.len() > 0 {
        assert(worktrees[kept[0]].branch == target);
    }
}

/// A name means nothing exactly where it occurs in no branch.
pub proof fn nothing_is_meant_where_nothing_matches(worktrees: Seq<WorktreeView>, target: Seq<char>)
    ensures
        lookup(worktrees, target) is Missing <==> forall|i: int|
            0 <= i < worktrees.len() ==> !text::has_substring(
                (#[trigger] worktrees[i]).branch,
                target,
            ),
{
    let kept = lemma_filter_places(worktrees, is_partial(target));
    let exact = lemma_filter_places(worktrees, is_exact(target));
    if lookup(worktrees, target) is Missing {
        assert forall|i: int| 0 <= i < worktrees.len() implies !text::has_substring(
            (#[trigger] worktrees[i]).branch,
            target,
        ) by {
            if text::has_substring(worktrees[i].branch, target) {
                assert(is_partial(target)(worktrees[i]));
                assert(kept.contains(i));
            }
        }
    }
    if forall|i: int|
        0 <= i < worktrees.len() ==> !text::has_substring((#[trigger] worktrees[i]).branch, target) {
        if kept.len() > 0 {
            assert(text::has_substring(worktrees[kept[0]].branch, target));
        }
        if exact.len() > 0 {
            let branch = worktrees[exact[0]].branch;
            assert(branch.skip(0) =~= branch);
            assert(target.is_prefix_of(branch.skip(0)));
        }
    }
}

/// A search is ambiguous exactly where no branch is the name and the name occurs in the
/// branches of two worktrees or more.
pub proof fn ambiguity_takes_two(worktrees: Seq<WorktreeView>, target: Seq<char>)
    ensures
        lookup(worktrees, target) is Ambiguous <==> {
            &&& forall|i: int|
                0 <= i < worktrees.len() ==> (#[trigger] worktrees[i]).branch != target
            &&& exists|i: int, j: int|
                0 <= i < j < worktrees.len() && text::has_substring(
                    (#[trigger] worktrees[i]).branch,
                    target,
                ) && text::has_substring((#[trigger] worktrees[j]).branch, target)
        },
{
    let kept = lemma_filter_places(worktrees, is_partial(target));
    let exact = lemma_filter_places(worktrees, is_exact(target));
    if lookup(worktrees, target) is Ambiguous {
        assert forall|i: int| 0 <= i < worktrees.len() implies (#[trigger] worktrees[i]).branch
            != target by {
            if worktrees[i].branch == target {
                assert(is_exact(target)(worktrees[i]));
                assert(exact.contains(i));
            }
        }
        assert(kept[0] < kept[1]);
        assert(text::has_substring(worktrees[kept[0]].branch, target));
        assert(text::has_substring(worktrees[kept[1]].branch, target));
    }
    if forall|i: int| 0 <= i < worktrees.len() ==> (#[trigger] worktrees[i]).branch != target {
        lemma_no_exact(worktrees, target);
        if exists|i: int, j: int|
            0 <= i < j < worktrees.len() && text::has_substring(
                (#[trigger] worktrees[i]).branch,
                target,
            ) && text::has_substring((#[trigger] worktrees[j]).branch, target) {
            let (i, j) = choose|i: int, j: int|
                0 <= i < j < worktrees.len() && text::has_substring(
                    (#[trigger] worktrees[i]).branch,
                    target,
                ) && text::has_substring((#[trigger] worktrees[j]).branch, target);
            assert(is_partial(target)(worktrees[i]) && is_partial(target)(worktrees[j]));
            assert(kept.contains(i) && kept.contains(j));
            assert(kept.len() > 1);
        }
    }
}

/// Where a search is ambiguous it gives every worktree in whose branch the name occurs,
/// each once, as they stood: at the places `matching`.
pub proof fn ambiguity_names_every_match(worktrees: Seq<WorktreeView>, target: Seq<char>) -> (matching: Seq<
    int,
>)
    requires
        lookup(worktrees, target) is Ambiguous,
    ensures
        lookup(worktrees, target)->Ambiguous_0.len() == matching.len(),
        forall|k: int|
            0 <= k < matching.len() ==> 0 <= #[trigger] matching[k] < worktrees.len() && lookup(
                worktrees,
                target,
            )->Ambiguous_0[k] == worktrees[matching[k]],
        forall|k: int, l: int|
            0 <= k < l < matching.len() ==> #[trigger] matching[k] < #[trigger] matching[l],
        forall|i: int|
            0 <= i < worktrees.len() ==> (#[trigger] matching.contains(i) <==> text::has_substring(
                worktrees[i].branch,
                target,
            )),
{
    let kept = lemma_filter_places(worktrees, is_partial(target));
    assert forall|i: int| 0 <= i < worktrees.len() implies (#[trigger] kept.contains(i)
        <==> text::has_substring(worktrees[i].branch, target)) by {
        if text::has_substring(worktrees[i].branch, target) {
            assert(is_partial(target)(worktrees[i]));
        }
        if kept.contains(i) {
            let k = choose|k: int| 0 <= k < kept.len() && kept[k] == i;
            assert(is_partial(target)(worktrees[kept[k]]));
        }
    }
    kept
}

} // verus!
