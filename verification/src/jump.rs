//! The command that tells where a worktree is, so that a shell can go there.
use std::path::PathBuf;
use vstd::prelude::*;

use crate::goal;
use crate::goal::Goal;
use crate::listing;
use crate::listing::{Listing, ListingView};
use crate::paths;
use crate::protocol;
use crate::protocol::{
    Answer, AnswerView, Ask, AskView, CommandError, Line, LinesView, Outcome, OutcomeView, Progress,
    Reply, Request, Step,
};
use crate::text;
use crate::worktrees;
use crate::worktrees::{Lookup, Menu, MenuView, Worktree, WorktreeView};

verus! {

/// A jump, between two requests.
pub enum Jump {
    /// The storage is to be opened.
    OpenStorage { goal: Goal<String>, current_repo_only: bool },
    /// The worktrees are being collected.
    List { goal: Goal<String>, listing: Listing },
    /// The user is to choose.
    Select(Menu<String, Vec<String>>),
    /// The path is to be read off the choice.
    Extract(String),
}

/// The model of a jump.
pub enum JumpView {
    OpenStorage { goal: Goal<Seq<char>>, current_repo_only: bool },
    List { goal: Goal<Seq<char>>, listing: ListingView },
    Select(MenuView),
    Extract(Seq<char>),
}

impl View for Jump {
    type V = JumpView;

    open spec fn view(&self) -> JumpView {
        match *self {
            Jump::OpenStorage { goal, current_repo_only } => JumpView::OpenStorage {
                goal: goal@,
                current_repo_only,
            },
            Jump::List { goal, listing } => JumpView::List { goal: goal@, listing: listing@ },
            Jump::Select(menu) => JumpView::Select(menu@),
            Jump::Extract(selection) => JumpView::Extract(selection@),
        }
    }
}

/// The model of a step of a jump.
pub type JumpStepView<E> = Step<JumpView, LinesView, OutcomeView<E>>;

/// A step of a jump.
pub type JumpStep<E> = Step<Jump, Vec<Line<String>>, Outcome<E>>;

/// A jump that arrives: the path is put out, and nothing else.
pub open spec fn arrive<E>(path: PathBuf) -> JumpStepView<E> {
    Step::Done { lines: seq![Line::Stdout(paths::path_display(path))], result: Ok(()) }
}

/// A jump that fails without a word.
pub open spec fn fail<E>(error: CommandError<Seq<char>, E>) -> JumpStepView<E> {
    Step::Done { lines: Seq::empty(), result: Err(error) }
}

/// A jump that goes on without a word.
pub open spec fn go_on<E>(session: JumpView) -> JumpStepView<E> {
    Step::Continue { lines: Seq::empty(), session }
}

/// What is said where a name may mean any of several worktrees.
pub open spec fn ambiguity(target: Seq<char>, matches: Seq<WorktreeView>) -> LinesView {
    seq![
        Line::Stderr(
            "Multiple worktrees match '"@ + target + "'. Please be more specific:"@,
        ),
    ] + matches.map_values(
        |w: WorktreeView| Line::Stderr("  "@ + w.repo + "/"@ + w.branch),
    )
}

/// What a jump does once the worktrees are known.
pub open spec fn with_worktrees<E>(goal: Goal<Seq<char>>, worktrees: Seq<WorktreeView>) -> JumpStepView<
    E,
> {
    match goal {
        Goal::Complete => Step::Done {
            lines: goal::completion_lines(worktrees),
            result: Ok(()),
        },
        Goal::Choose => match worktrees::menu("Jump to worktree:"@, worktrees) {
            Some(menu) => go_on(JumpView::Select(menu)),
            None => fail(CommandError::NoWorktrees),
        },
        Goal::Named(target) => match worktrees::lookup(worktrees, target) {
            Lookup::Found(path) => arrive(path),
            Lookup::Missing => fail(CommandError::NoMatch(target)),
            Lookup::Ambiguous(matches) => Step::Done {
                lines: ambiguity(target, matches),
                result: Err(CommandError::Ambiguous),
            },
        },
    }
}

impl JumpView {
    /// What a jump asks for.
    pub open spec fn request(self) -> AskView {
        match self {
            JumpView::OpenStorage { .. } => Request::OpenStorage,
            JumpView::List { listing, .. } => listing.request(),
            JumpView::Select(menu) => Request::Select {
                prompt: menu.prompt,
                options: menu.options,
            },
            JumpView::Extract(selection) => Request::ExtractPath(selection),
        }
    }

    /// Where a jump stands after a reply. One that does not answer what was asked
    /// changes nothing. Where the completions of the current repository are wanted and
    /// there is none, the jump fails; a name or a choice fails there for want of
    /// worktrees.
    pub open spec fn after<E>(self, reply: AnswerView<E>) -> JumpStepView<E> {
        match (self, reply) {
            (JumpView::OpenStorage { goal, current_repo_only }, Reply::StorageOpened(r)) => match r {
                Ok(()) => go_on(
                    JumpView::List { goal, listing: ListingView::start(current_repo_only) },
                ),
                Err(e) => fail(CommandError::Failed(e)),
            },
            (
                JumpView::List { goal: Goal::Complete, listing: ListingView::CurrentRepo },
                Reply::CurrentRepo(Ok(None)),
            ) => fail(CommandError::NoCurrentRepo),
            (JumpView::List { goal, listing }, _) => match listing.after(reply) {
                Progress::Waiting(listing) => go_on(JumpView::List { goal, listing }),
                Progress::Finished(Ok(worktrees)) => with_worktrees(goal, worktrees),
                Progress::Finished(Err(e)) => fail(CommandError::Failed(e)),
            },
            (JumpView::Select(_), Reply::Selected(r)) => match r {
                Ok(selection) => go_on(JumpView::Extract(selection)),
                Err(e) => fail(CommandError::Failed(e)),
            },
            (JumpView::Extract(_), Reply::ExtractedPath(r)) => match r {
                Ok(path) => arrive(path),
                Err(e) => fail(CommandError::Failed(e)),
            },
            _ => go_on(self),
        }
    }
}

/// Jump to a worktree directory.
///
/// Starts the command: its first request is to open the storage.
pub fn jump_worktree(
    target: Option<&str>,
    interactive: bool,
    list_completions: bool,
    current_repo_only: bool,
) -> (session: Jump)
    ensures
        session@ == (JumpView::OpenStorage {
            goal: goal::goal_of(goal::target_view(target), interactive, list_completions),
            current_repo_only,
        }),
{
    Jump::OpenStorage {
        goal: goal::choose_goal(target, interactive, list_completions),
        current_repo_only,
    }
}

/// Puts out where a worktree is.
fn arrive_at<E>(path: &PathBuf) -> (step: JumpStep<E>)
    ensures
        protocol::step_view(step) == arrive::<E>(*path),
{
    let mut lines = protocol::silence();
    protocol::say(&mut lines, paths::display(path));
    Step::Done { lines, result: Ok(()) }
}

/// Says which worktrees a name may mean.
fn report_ambiguity(target: &String, matches: &Vec<Worktree<String>>) -> (lines: Vec<Line<String>>)
    ensures
        text::views(lines@) == ambiguity(target@, text::views(matches@)),
{
    let ghost model = text::views(matches@);
    let mut lines = protocol::silence();
    protocol::complain(
        &mut lines,
        "Multiple worktrees match '".to_string().concat(target.as_str()).concat(
            "'. Please be more specific:",
        ),
    );
    assert(text::views(lines@) =~= ambiguity(target@, model.take(0)));
    for i in 0..matches.len()
        invariant
            model == text::views(matches@),
            text::views(lines@) == ambiguity(target@, model.take(i as int)),
    {
        protocol::complain(
            &mut lines,
            "  ".to_string().concat(matches[i].repo.as_str()).concat("/").concat(
                matches[i].branch.as_str(),
            ),
        );
        assert(model[i as int] == matches@[i as int]@);
        assert(text::views(lines@) =~= ambiguity(target@, model.take(i + 1)));
    }
    assert(model.take(model.len() as int) =~= model);
    lines
}

/// What a jump does once the worktrees are known.
fn proceed_with<E>(goal: Goal<String>, worktrees: Vec<Worktree<String>>) -> (step: JumpStep<E>)
    ensures
        protocol::step_view(step) == with_worktrees::<E>(goal@, text::views(worktrees@)),
{
    let lines = protocol::silence();
    match goal {
        Goal::Complete => Step::Done { lines: goal::complete(&worktrees), result: Ok(()) },
        Goal::Choose => match worktrees::select_worktree_interactive(&worktrees) {
            Some(menu) => Step::Continue { lines, session: Jump::Select(menu) },
            None => Step::Done { lines, result: Err(CommandError::NoWorktrees) },
        },
        Goal::Named(target) => match worktrees::find_worktree_by_name(
            &worktrees,
            target.as_str(),
        ) {
            Lookup::Found(path) => arrive_at(&path),
            Lookup::Missing => Step::Done { lines, result: Err(CommandError::NoMatch(target)) },
            Lookup::Ambiguous(matches) => Step::Done {
                lines: report_ambiguity(&target, &matches),
                result: Err(CommandError::Ambiguous),
            },
        },
    }
}

impl Jump {
    /// What the jump asks for.
    pub fn request(&self) -> (ask: Ask)
        ensures
            ask@ == self@.request(),
    {
        match self {
            Jump::OpenStorage { .. } => Request::OpenStorage,
            Jump::List { listing, .. } => listing.request(),
            Jump::Select(menu) => Request::Select {
                prompt: menu.prompt.clone(),
                options: text::copy_texts(&menu.options),
            },
            Jump::Extract(selection) => Request::ExtractPath(selection.clone()),
        }
    }

    /// Takes a reply, and goes on or ends.
    pub fn resume<E>(self, reply: Answer<E>) -> (step: JumpStep<E>)
        ensures
            protocol::step_view(step) == self@.after(reply@),
    {
        let lines = protocol::silence();
        match (self, reply) {
            (Jump::OpenStorage { goal, current_repo_only }, Reply::StorageOpened(r)) => match r {
                Ok(()) => Step::Continue {
                    lines,
                    session: Jump::List {
                        goal,
                        listing: listing::get_available_worktrees(current_repo_only),
                    },
                },
                Err(e) => Step::Done { lines, result: Err(CommandError::Failed(e)) },
            },
            (
                Jump::List { goal: Goal::Complete, listing: Listing::CurrentRepo },
                Reply::CurrentRepo(Ok(None)),
            ) => Step::Done { lines, result: Err(CommandError::NoCurrentRepo) },
            (Jump::List { goal, listing }, reply) => match listing.resume(reply) {
                Progress::Waiting(listing) => Step::Continue {
                    lines,
                    session: Jump::List { goal, listing },
                },
                Progress::Finished(Ok(worktrees)) => proceed_with(goal, worktrees),
                Progress::Finished(Err(e)) => Step::Done {
                    lines,
                    result: Err(CommandError::Failed(e)),
                },
            },
            (Jump::Select(_), Reply::Selected(r)) => match r {
                Ok(selection) => Step::Continue { lines, session: Jump::Extract(selection) },
                Err(e) => Step::Done { lines, result: Err(CommandError::Failed(e)) },
            },
            (Jump::Extract(_), Reply::ExtractedPath(r)) => match r {
                Ok(path) => arrive_at(&path),
                Err(e) => Step::Done { lines, result: Err(CommandError::Failed(e)) },
            },
            (session, _) => Step::Continue { lines, session },
        }
    }
}

} // verus!
