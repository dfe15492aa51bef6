//! The command that removes a worktree and, unless told otherwise, its branch.
use std::path::PathBuf;
use vstd::prelude::*;

use crate::goal;
use crate::goal::Goal;
use crate::listing;
use crate::listing::{Listing, ListingView};
use crate::protocol;
use crate::protocol::{
    Answer, AnswerView, Ask, AskView, CommandError, Line, LinesView, Outcome, OutcomeView, Progress,
    Reply, Request, Step,
};
use crate::removal;
use crate::removal::{Removal, RemovalView, Stage, Ticket};
use crate::resolve;
use crate::resolve::{Resolver, ResolverView};
use crate::text;
use crate::worktrees;
use crate::worktrees::{Menu, MenuView, Worktree, WorktreeView};

verus! {

/// A remove command, between two requests.
pub enum Remove {
    /// The storage is to be opened.
    OpenStorage { goal: Goal<String>, preserve_branch: bool, current_repo_only: bool },
    /// The worktrees are being collected, to be listed.
    Complete(Listing),
    /// The current repository is to be opened. `target` is what is named, if anything.
    OpenRepo { target: Option<String>, preserve_branch: bool, current_repo_only: bool },
    /// The worktrees are being collected, to choose from.
    List { repo: String, preserve_branch: bool, listing: Listing },
    /// The user is to choose.
    Select { repo: String, preserve_branch: bool, menu: Menu<String, Vec<String>> },
    /// The path is to be read off the choice.
    ExtractPath { repo: String, preserve_branch: bool, selection: String },
    /// The branch is to be read off the choice.
    ExtractBranch { repo: String, preserve_branch: bool, path: PathBuf, selection: String },
    /// It is to be found out what the target means.
    Resolve { repo: String, preserve_branch: bool, resolver: Resolver<String> },
    /// The worktree is known and is being removed.
    Remove(Removal<String>),
}

/// The model of a remove command.
pub enum RemoveView {
    OpenStorage { goal: Goal<Seq<char>>, preserve_branch: bool, current_repo_only: bool },
    Complete(ListingView),
    OpenRepo { target: Option<Seq<char>>, preserve_branch: bool, current_repo_only: bool },
    List { repo: Seq<char>, preserve_branch: bool, listing: ListingView },
    Select { repo: Seq<char>, preserve_branch: bool, menu: MenuView },
    ExtractPath { repo: Seq<char>, preserve_branch: bool, selection: Seq<char> },
    ExtractBranch { repo: Seq<char>, preserve_branch: bool, path: PathBuf, selection: Seq<char> },
    Resolve { repo: Seq<char>, preserve_branch: bool, resolver: ResolverView },
    Remove(RemovalView),
}

impl View for Remove {
    type V = RemoveView;

    open spec fn view(&self) -> RemoveView {
        match *self {
            Remove::OpenStorage { goal, preserve_branch, current_repo_only } => {
                RemoveView::OpenStorage { goal: goal@, preserve_branch, current_repo_only }
            },
            Remove::Complete(listing) => RemoveView::Complete(listing@),
            Remove::OpenRepo { target, preserve_branch, current_repo_only } => {
                RemoveView::OpenRepo {
                    target: match target {
                        Some(t) => Some(t@),
                        None => None,
                    },
                    preserve_branch,
                    current_repo_only,
                }
            },
            Remove::List { repo, preserve_branch, listing } => RemoveView::List {
                repo: repo@,
                preserve_branch,
                listing: listing@,
            },
            Remove::Select { repo, preserve_branch, menu } => RemoveView::Select {
                repo: repo@,
                preserve_branch,
                menu: menu@,
            },
            Remove::ExtractPath { repo, preserve_branch, selection } => RemoveView::ExtractPath {
                repo: repo@,
                preserve_branch,
                selection: selection@,
            },
            Remove::ExtractBranch { repo, preserve_branch, path, selection } => {
                RemoveView::ExtractBranch {
                    repo: repo@,
                    preserve_branch,
                    path,
                    selection: selection@,
                }
            },
            Remove::Resolve { repo, preserve_branch, resolver } => RemoveView::Resolve {
                repo: repo@,
                preserve_branch,
                resolver: resolver@,
            },
            Remove::Remove(removal) => RemoveView::Remove(removal@),
        }
    }
}

/// The model of a step of a remove command.
pub type RemoveStepView<E> = Step<RemoveView, LinesView, OutcomeView<E>>;

/// A step of a remove command.
pub type RemoveStep<E> = Step<Remove, Vec<Line<String>>, Outcome<E>>;

/// A remove command that fails without a word.
pub open spec fn fail<E>(error: CommandError<Seq<char>, E>) -> RemoveStepView<E> {
    Step::Done { lines: Seq::empty(), result: Err(error) }
}

/// A remove command that goes on without a word.
pub open spec fn go_on<E>(session: RemoveView) -> RemoveStepView<E> {
    Step::Continue { lines: Seq::empty(), session }
}

/// The removal of a worktree that is now known.
pub open spec fn begin_removal<E>(
    repo: Seq<char>,
    path: PathBuf,
    branch: Seq<char>,
    preserve_branch: bool,
) -> RemoveStepView<E> {
    go_on(
        RemoveView::Remove(
            Removal {
                ticket: Ticket { repo, path, branch, preserve_branch },
                stage: Stage::CheckPath,
            },
        ),
    )
}

/// A step of the removal proper, as one of the command.
pub open spec fn removal_step<E>(step: Step<RemovalView, LinesView, OutcomeView<E>>) -> RemoveStepView<
    E,
> {
    match step {
        Step::Continue { lines, session } => Step::Continue {
            lines,
            session: RemoveView::Remove(session),
        },
        Step::Done { lines, result } => Step::Done { lines, result },
    }
}

/// What a remove command does once the user has something to choose from.
pub open spec fn with_worktrees<E>(
    repo: Seq<char>,
    preserve_branch: bool,
    worktrees: Seq<WorktreeView>,
) -> RemoveStepView<E> {
    match worktrees::menu("Select worktree to remove:"@, worktrees) {
        Some(menu) => go_on(RemoveView::Select { repo, preserve_branch, menu }),
        None => fail(CommandError::NoWorktrees),
    }
}

impl RemoveView {
    /// What a remove command asks for.
    pub open spec fn request(self) -> AskView {
        match self {
            RemoveView::OpenStorage { .. } => Request::OpenStorage,
            RemoveView::Complete(listing) => listing.request(),
            RemoveView::OpenRepo { .. } => Request::OpenCurrentRepo,
            RemoveView::List { listing, .. } => listing.request(),
            RemoveView::Select { menu, .. } => Request::Select {
                prompt: menu.prompt,
                options: menu.options,
            },
            RemoveView::ExtractPath { selection, .. } => Request::ExtractPath(selection),
            RemoveView::ExtractBranch { selection, .. } => Request::ExtractBranch(selection),
            RemoveView::Resolve { resolver, .. } => resolver.request(),
            RemoveView::Remove(removal) => removal.request(),
        }
    }

    /// Where a remove command stands after a reply. One that does not answer what was
    /// asked changes nothing.
    pub open spec fn after<E>(self, reply: AnswerView<E>) -> RemoveStepView<E> {
        match (self, reply) {
            (
                RemoveView::OpenStorage { goal, preserve_branch, current_repo_only },
                Reply::StorageOpened(r),
            ) => match r {
                Ok(()) => match goal {
                    Goal::Complete => go_on(
                        RemoveView::Complete(ListingView::start(current_repo_only)),
                    ),
                    Goal::Choose => go_on(
                        RemoveView::OpenRepo { target: None, preserve_branch, current_repo_only },
                    ),
                    Goal::Named(target) => go_on(
                        RemoveView::OpenRepo {
                            target: Some(target),
                            preserve_branch,
                            current_repo_only,
                        },
                    ),
                },
                Err(e) => fail(CommandError::Failed(e)),
            },
            (RemoveView::Complete(listing), _) => match listing.after(reply) {
                Progress::Waiting(listing) => go_on(RemoveView::Complete(listing)),
                Progress::Finished(Ok(worktrees)) => Step::Done {
                    lines: goal::completion_lines(worktrees),
                    result: Ok(()),
                },
                Progress::Finished(Err(e)) => fail(CommandError::Failed(e)),
            },
            (
                RemoveView::OpenRepo { target, preserve_branch, current_repo_only },
                Reply::RepoOpened(r),
            ) => match r {
                Ok(repo) => match target {
                    None => go_on(
                        RemoveView::List {
                            repo,
                            preserve_branch,
                            listing: ListingView::start(current_repo_only),
                        },
                    ),
                    Some(target) => go_on(
                        RemoveView::Resolve {
                            repo,
                            preserve_branch,
                            resolver: Resolver::start(target, repo),
                        },
                    ),
                },
                Err(e) => fail(CommandError::Failed(e)),
            },
            (RemoveView::List { repo, preserve_branch, listing }, _) => {
                match listing.after(reply) {
                    Progress::Waiting(listing) => go_on(
                        RemoveView::List { repo, preserve_branch, listing },
                    ),
                    Progress::Finished(Ok(worktrees)) => with_worktrees(
                        repo,
                        preserve_branch,
                        worktrees,
                    ),
                    Progress::Finished(Err(e)) => fail(CommandError::Failed(e)),
                }
            },
            (RemoveView::Select { repo, preserve_branch, .. }, Reply::Selected(r)) => match r {
                Ok(selection) => go_on(
                    RemoveView::ExtractPath { repo, preserve_branch, selection },
                ),
                Err(e) => fail(CommandError::Failed(e)),
            },
            (
                RemoveView::ExtractPath { repo, preserve_branch, selection },
                Reply::ExtractedPath(r),
            ) => match r {
                Ok(path) => go_on(
                    RemoveView::ExtractBranch { repo, preserve_branch, path, selection },
                ),
                Err(e) => fail(CommandError::Failed(e)),
            },
            (
                RemoveView::ExtractBranch { repo, preserve_branch, path, .. },
                Reply::ExtractedBranch(r),
            ) => match r {
                Ok(branch) => begin_removal(repo, path, branch, preserve_branch),
                Err(e) => fail(CommandError::Failed(e)),
            },
            (RemoveView::Resolve { repo, preserve_branch, resolver }, _) => {
                match resolver.after(reply) {
                    Progress::Waiting(resolver) => go_on(
                        RemoveView::Resolve { repo, preserve_branch, resolver },
                    ),
                    Progress::Finished(Ok(resolved)) => begin_removal(
                        repo,
                        resolved.path,
                        resolved.branch,
                        preserve_branch,
                    ),
                    Progress::Finished(Err(error)) => fail(error),
                }
            },
            (RemoveView::Remove(removal), _) => removal_step(removal.after(reply)),
            _ => go_on(self),
        }
    }
}

/// Removes a worktree and, unless the branch is to be preserved, deletes the branch.
///
/// Starts the command: its first request is to open the storage.
pub fn remove_worktree(
    target: Option<&str>,
    preserve_branch: bool,
    interactive: bool,
    list_completions: bool,
    current_repo_only: bool,
) -> (session: Remove)
    ensures
        session@ == (RemoveView::OpenStorage {
            goal: goal::goal_of(goal::target_view(target), interactive, list_completions),
            preserve_branch,
            current_repo_only,
        }),
{
    Remove::OpenStorage {
        goal: goal::choose_goal(target, interactive, list_completions),
        preserve_branch,
        current_repo_only,
    }
}

/// Lets the user choose, if there is anything to choose from.
fn offer_choice<E>(repo: String, preserve_branch: bool, worktrees: Vec<Worktree<String>>) -> (step:
    RemoveStep<E>)
    ensures
        protocol::step_view(step) == with_worktrees::<E>(
            repo@,
            preserve_branch,
            text::views(worktrees@),
        ),
{
    let lines = protocol::silence();
    match worktrees::select_worktree_for_removal(&worktrees) {
        Some(menu) => Step::Continue {
            lines,
            session: Remove::Select { repo, preserve_branch, menu },
        },
        None => Step::Done { lines, result: Err(CommandError::NoWorktrees) },
    }
}

impl Remove {
    /// What the command asks for.
    pub fn request(&self) -> (ask: Ask)
        ensures
            ask@ == self@.request(),
    {
        match self {
            Remove::OpenStorage { .. } => Request::OpenStorage,
            Remove::Complete(listing) => listing.request(),
            Remove::OpenRepo { .. } => Request::OpenCurrentRepo,
            Remove::List { listing, .. } => listing.request(),
            Remove::Select { menu, .. } => Request::Select {
                prompt: menu.prompt.clone(),
                options: text::copy_texts(&menu.options),
            },
            Remove::ExtractPath { selection, .. } => Request::ExtractPath(selection.clone()),
            Remove::ExtractBranch { selection, .. } => Request::ExtractBranch(selection.clone()),
            Remove::Resolve { resolver, .. } => resolver.request(),
            Remove::Remove(removal) => removal.request(),
        }
    }

    /// Takes a reply, and goes on or ends.
    pub fn resume<E>(self, reply: Answer<E>) -> (step: RemoveStep<E>)
        ensures
            protocol::step_view(step) == self@.after(reply@),
    {
        let lines = protocol::silence();
        match (self, reply) {
            (
                Remove::OpenStorage { goal, preserve_branch, current_repo_only },
                Reply::StorageOpened(r),
            ) => match r {
                Ok(()) => {
                    let session = match goal {
                        Goal::Complete => Remove::Complete(
                            listing::get_available_worktrees(current_repo_only),
                        ),
                        Goal::Choose => Remove::OpenRepo {
                            target: None,
                            preserve_branch,
                            current_repo_only,
                        },
                        Goal::Named(target) => Remove::OpenRepo {
                            target: Some(target),
                            preserve_branch,
                            current_repo_only,
                        },
                    };
                    Step::Continue { lines, session }
                },
                Err(e) => Step::Done { lines, result: Err(CommandError::Failed(e)) },
            },
            (Remove::Complete(listing), reply) => match listing.resume(reply) {
                Progress::Waiting(listing) => Step::Continue {
                    lines,
                    session: Remove::Complete(listing),
                },
                Progress::Finished(Ok(worktrees)) => Step::Done {
                    lines: goal::complete(&worktrees),
                    result: Ok(()),
                },
                Progress::Finished(Err(e)) => Step::Done {
                    lines,
                    result: Err(CommandError::Failed(e)),
                },
            },
            (
                Remove::OpenRepo { target, preserve_branch, current_repo_only },
                Reply::RepoOpened(r),
            ) => match r {
                Ok(repo) => {
                    let session = match target {
                        None => Remove::List {
                            repo,
                            preserve_branch,
                            listing: listing::get_available_worktrees(current_repo_only),
                        },
                        Some(target) => {
                            let resolver = resolve::resolve_target(target.as_str(), repo.as_str());
                            Remove::Resolve { repo, preserve_branch, resolver }
                        },
                    };
                    Step::Continue { lines, session }
                },
                Err(e) => Step::Done { lines, result: Err(CommandError::Failed(e)) },
            },
            (Remove::List { repo, preserve_branch, listing }, reply) => match listing.resume(
                reply,
            ) {
                Progress::Waiting(listing) => Step::Continue {
                    lines,
                    session: Remove::List { repo, preserve_branch, listing },
                },
                Progress::Finished(Ok(worktrees)) => offer_choice(
                    repo,
                    preserve_branch,
                    worktrees,
                ),
                Progress::Finished(Err(e)) => Step::Done {
                    lines,
                    result: Err(CommandError::Failed(e)),
                },
            },
            (Remove::Select { repo, preserve_branch, .. }, Reply::Selected(r)) => match r {
                Ok(selection) => Step::Continue {
                    lines,
                    session: Remove::ExtractPath { repo, preserve_branch, selection },
                },
                Err(e) => Step::Done { lines, result: Err(CommandError::Failed(e)) },
            },
            (
                Remove::ExtractPath { repo, preserve_branch, selection },
                Reply::ExtractedPath(r),
            ) => match r {
                Ok(path) => Step::Continue {
                    lines,
                    session: Remove::ExtractBranch { repo, preserve_branch, path, selection },
                },
                Err(e) => Step::Done { lines, result: Err(CommandError::Failed(e)) },
            },
            (
                Remove::ExtractBranch { repo, preserve_branch, path, .. },
                Reply::ExtractedBranch(r),
            ) => match r {
                Ok(branch) => Step::Continue {
                    lines,
                    session: Remove::Remove(
                        removal::start_removal(repo, path, branch, preserve_branch),
                    ),
                },
                Err(e) => Step::Done { lines, result: Err(CommandError::Failed(e)) },
            },
            (Remove::Resolve { repo, preserve_branch, resolver }, reply) => match resolver.resume(
                reply,
            ) {
                Progress::Waiting(resolver) => Step::Continue {
                    lines,
                    session: Remove::Resolve { repo, preserve_branch, resolver },
                },
                Progress::Finished(Ok(resolved)) => Step::Continue {
                    lines,
                    session: Remove::Remove(
                        removal::start_removal(
                            repo,
                            resolved.path,
                            resolved.branch,
                            preserve_branch,
                        ),
                    ),
                },
                Progress::Finished(Err(error)) => Step::Done { lines, result: Err(error) },
            },
            (Remove::Remove(removal), reply) => match removal.resume(reply) {
                Step::Continue { lines, session } => Step::Continue {
                    lines,
                    session: Remove::Remove(session),
                },
                Step::Done { lines, result } => Step::Done { lines, result },
            },
            (session, _) => Step::Continue { lines, session },
        }
    }
}

} // verus!
