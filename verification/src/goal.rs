//! What a command is after, by its arguments.
use vstd::prelude::*;

use crate::text;
use crate::protocol;
use crate::protocol::{Line, LinesView};
use crate::worktrees;
use crate::worktrees::{Worktree, WorktreeView};

verus! {

/// What a command is after. `T` is a text.
#[derive(Debug, PartialEq, Eq)]
pub enum Goal<T> {
    /// To list what could be completed.
    Complete,
    /// To let the user choose a worktree.
    Choose,
    /// To act on the worktree that is meant by a name.
    Named(T),
}

impl View for Goal<String> {
    type V = Goal<Seq<char>>;

    open spec fn view(&self) -> Goal<Seq<char>> {
        match self {
            Goal::Complete => Goal::Complete,
            Goal::Choose => Goal::Choose,
            Goal::Named(target) => Goal::Named(target@),
        }
    }
}

/// The view of a target that may be missing.
pub open spec fn target_view(target: Option<&str>) -> Option<Seq<char>> {
    match target {
        Some(t) => Some(t@),
        None => None,
    }
}

/// What a command is after: completions above all; then a choice, where one is asked
/// for or nothing is named; else what is named.
pub open spec fn goal_of(
    target: Option<Seq<char>>,
    interactive: bool,
    list_completions: bool,
) -> Goal<Seq<char>> {
    if list_completions {
        Goal::Complete
    } else if interactive || target is None {
        Goal::Choose
    } else {
        Goal::Named(target->0)
    }
}

/// What a command is after.
pub(crate) fn choose_goal(target: Option<&str>, interactive: bool, list_completions: bool) -> (goal: Goal<
    String,
>)
    ensures
        goal@ == goal_of(target_view(target), interactive, list_completions),
{
    if list_completions {
        return Goal::Complete;
    }
    match target {
        Some(name) if !interactive => Goal::Named(name.to_string()),
        _ => Goal::Choose,
    }
}

/// The completions, one line for each worktree.
pub open spec fn completion_lines(worktrees: Seq<WorktreeView>) -> LinesView {
    worktrees::branches(worktrees).map_values(|branch: Seq<char>| Line::Stdout(branch))
}

/// Puts out the completions.
pub(crate) fn complete(worktrees: &Vec<Worktree<String>>) -> (lines: Vec<Line<String>>)
    ensures
        text::views(lines@) == completion_lines(text::views(worktrees@)),
{
    let branches = worktrees::list_worktree_completions(worktrees);
    let ghost model = text::views(branches@);
    let mut lines = protocol::silence();
    for i in 0..branches.len()
        invariant
            model == text::views(branches@),
            text::views(lines@) == model.take(i as int).map_values(
                |branch: Seq<char>| Line::Stdout(branch),
            ),
    {
        protocol::say(&mut lines, branches[i].clone());
        assert(model.take(i + 1).map_values(|branch: Seq<char>| Line::Stdout(branch))
            =~= model.take(i as int).map_values(|branch: Seq<char>| Line::Stdout(branch)).push(
            Line::Stdout(branches@[i as int]@),
        ));
    }
    assert(model.take(model.len() as int) =~= model);
    lines
}

/// Completions come first. Without them, nothing but a name that is given and not put
/// aside by a wish to choose is acted on, and then by exactly that name.
pub proof fn goals_follow_the_arguments(target: Seq<char>, interactive: bool)
    ensures
        goal_of(Some(target), interactive, true) is Complete,
        goal_of(None, interactive, true) is Complete,
        goal_of(None, interactive, false) is Choose,
        goal_of(Some(target), true, false) is Choose,
        goal_of(Some(target), false, false) == Goal::Named(target),
{
}

/// There is a line for the standard output for each worktree, with its branch and no
/// more.
pub proof fn every_branch_is_put_out(worktrees: Seq<WorktreeView>)
    ensures
        completion_lines(worktrees).len() == worktrees.len(),
        forall|i: int|
            0 <= i < worktrees.len() ==> #[trigger] completion_lines(worktrees)[i] == Line::Stdout(
                worktrees[i].branch,
            ),
{
}

} // verus!
