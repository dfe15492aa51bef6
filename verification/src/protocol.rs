//! What a running command asks of its surroundings, and what it is told.
//!
//! A command is a session. While it runs it asks one thing at a time
//! ([`Request`]): to look something up in the worktree storage, in git or in the
//! file system, to let the user choose, or to carry out one change. Whoever drives
//! the session does what is asked and hands back the [`Reply`]. Between two
//! requests a session may put out lines ([`Line`]), which are to be shown before
//! the next request is carried out.
//!
//! The types are generic in how they hold text and lists, so that the model of a
//! value (over `Seq<char>`) has the shape of the value itself (over `String`).
use std::path::PathBuf;
use vstd::prelude::*;

use crate::paths;
use crate::text;

verus! {

/// One thing that a session asks for. `T` is a text, `L` a list of texts.
#[derive(Debug, Clone, PartialEq, Eq)]
pub enum Request<T, L> {
    /// Open the worktree storage.
    OpenStorage,
    /// Open the git repository of the current directory, to be kept for the rest of
    /// the command, and tell the name that the storage has for it.
    OpenCurrentRepo,
    /// Tell the name that the storage has for the repository of the current
    /// directory, if the current directory is in one.
    CurrentRepoName,
    /// List the worktrees that the storage has for a repository.
    ListRepoWorktrees(T),
    /// List the worktrees of every repository in the storage.
    ListAllWorktrees,
    /// Tell where the storage keeps a worktree, and whether something is there.
    LocateWorktree { repo: T, name: T },
    /// Look up the branch whose directory name is `name`.
    OriginalBranch { repo: T, name: T },
    /// Tell when a path was last modified.
    ModifiedTime(PathBuf),
    /// Let the user choose one of the options.
    Select { prompt: T, options: L },
    /// Read the path off a chosen option.
    ExtractPath(T),
    /// Read the branch off a chosen option.
    ExtractBranch(T),
    /// Tell the directory under which the storage keeps a repository's worktrees.
    RepoStorageDir(T),
    /// List the local branches of the repository of the current directory, if they
    /// can be had.
    LocalBranches,
    /// Tell whether something is at a path.
    PathExists(PathBuf),
    /// Tell the branch that is checked out in the worktree at a path.
    HeadBranch(PathBuf),
    /// Remove a directory and all that is in it.
    RemoveDirectory(PathBuf),
    /// Remove git's record of a worktree.
    PruneWorktree(T),
    /// Remove the stored origin of a branch's worktree.
    RemoveOrigin { repo: T, branch: T },
    /// Delete a branch, merged or not.
    DeleteBranch(T),
    /// Take the mark from a branch that says that it is managed.
    UnmarkBranch { repo: T, branch: T },
    /// Remove the stored mapping between a branch and its directory name.
    RemoveMapping { repo: T, branch: T },
}

/// What a session is told. Each variant answers the request of its name. `E` is
/// what the surroundings report when something fails; where a session only ever
/// shows the failure, it gets the text of it.
pub enum Reply<T, L, A, E> {
    /// Answers `OpenStorage`.
    StorageOpened(Result<(), E>),
    /// Answers `OpenCurrentRepo` with the repository's name.
    RepoOpened(Result<T, E>),
    /// Answers `CurrentRepoName`; `Ok(None)` where no repository could be opened.
    CurrentRepo(Result<Option<T>, E>),
    /// Answers `ListRepoWorktrees`.
    RepoWorktrees(Result<L, E>),
    /// Answers `ListAllWorktrees`.
    AllWorktrees(Result<A, E>),
    /// Answers `LocateWorktree`.
    Located { path: PathBuf, exists: bool },
    /// Answers `OriginalBranch`; `Ok(None)` where there is no mapping.
    OriginalBranch(Result<Option<T>, E>),
    /// Answers `ModifiedTime`, in nanoseconds from a fixed moment; `None` where the
    /// time cannot be had.
    Modified(Option<i128>),
    /// Answers `Select` with the chosen option.
    Selected(Result<T, E>),
    /// Answers `ExtractPath`.
    ExtractedPath(Result<PathBuf, E>),
    /// Answers `ExtractBranch`.
    ExtractedBranch(Result<T, E>),
    /// Answers `RepoStorageDir`.
    StorageDir(PathBuf),
    /// Answers `LocalBranches`; an error where the current directory cannot be had,
    /// `Ok(None)` where its repository or the branches of that cannot.
    LocalBranches(Result<Option<L>, E>),
    /// Answers `PathExists`.
    PathExists(bool),
    /// Answers `HeadBranch`; the error is the text of the failure.
    HeadBranch(Result<T, T>),
    /// Answers `RemoveDirectory`.
    DirectoryRemoved(Result<(), E>),
    /// Answers `PruneWorktree`.
    WorktreePruned(Result<(), E>),
    /// Answers `RemoveOrigin`; the error is the text of the failure.
    OriginRemoved(Result<(), T>),
    /// Answers `DeleteBranch`; the error is the text of the failure.
    BranchDeleted(Result<(), T>),
    /// Answers `UnmarkBranch`.
    BranchUnmarked,
    /// Answers `RemoveMapping`; the error is the text of the failure.
    MappingRemoved(Result<(), T>),
}

/// A line of output.
#[derive(Debug, PartialEq, Eq)]
pub enum Line<T> {
    /// A line for the standard output.
    Stdout(T),
    /// A line for the standard error.
    Stderr(T),
}

/// Why a command failed.
#[derive(Debug, PartialEq, Eq)]
pub enum CommandError<T, E> {
    /// The surroundings failed: the error as it came.
    Failed(E),
    /// The current directory is in no repository.
    NoCurrentRepo,
    /// There is nothing to choose from.
    NoWorktrees,
    /// No worktree goes by this name.
    NoMatch(T),
    /// More than one worktree matches.
    Ambiguous,
    /// The worktree's directory is not there.
    PathMissing(PathBuf),
    /// An absolute path that is no worktree of this repository.
    InvalidPath(T),
    /// No worktree belongs to this branch.
    NoWorktreeForBranch(T),
    /// A directory name whose branch cannot be told.
    UnknownBranch(T),
    /// The worktree's directory could not be removed.
    DirectoryNotRemoved(E),
    /// Git's record of the worktree could not be removed.
    NotPruned(E),
    /// The worktree is gone, but its branch could not be deleted: the text of why.
    BranchNotDeleted(T),
}

/// Where a part of a session stands that is asked and told in turn: it waits for a
/// reply, or it has come to a result.
pub enum Progress<S, R> {
    Waiting(S),
    Finished(R),
}

/// Where a session stands after a reply: it goes on, or it is done.
pub enum Step<S, L, R> {
    /// Show the lines, then carry out what the session asks for next.
    Continue { lines: L, session: S },
    /// Show the lines; the command is over.
    Done { lines: L, result: R },
}

/// A request as a session hands it out.
pub type Ask = Request<String, Vec<String>>;

/// The model of a request.
pub type AskView = Request<Seq<char>, Seq<Seq<char>>>;

/// The worktrees of every repository, as the storage lists them.
pub type Catalogue = Vec<(String, Vec<String>)>;

/// The model of a catalogue.
pub type CatalogueView = Seq<(Seq<char>, Seq<Seq<char>>)>;

/// A reply as a session takes it.
pub type Answer<E> = Reply<String, Vec<String>, Catalogue, E>;

/// The model of a reply.
pub type AnswerView<E> = Reply<Seq<char>, Seq<Seq<char>>, CatalogueView, E>;

/// The model of what a session puts out.
pub type LinesView = Seq<Line<Seq<char>>>;

/// How a command ends.
pub type Outcome<E> = Result<(), CommandError<String, E>>;

/// The model of how a command ends.
pub type OutcomeView<E> = Result<(), CommandError<Seq<char>, E>>;

impl View for Request<String, Vec<String>> {
    type V = AskView;

    open spec fn view(&self) -> AskView {
        match self {
            Request::OpenStorage => Request::OpenStorage,
            Request::OpenCurrentRepo => Request::OpenCurrentRepo,
            Request::CurrentRepoName => Request::CurrentRepoName,
            Request::ListRepoWorktrees(repo) => Request::ListRepoWorktrees(repo@),
            Request::ListAllWorktrees => Request::ListAllWorktrees,
            Request::LocateWorktree { repo, name } => Request::LocateWorktree {
                repo: repo@,
                name: name@,
            },
            Request::OriginalBranch { repo, name } => Request::OriginalBranch {
                repo: repo@,
                name: name@,
            },
            Request::ModifiedTime(path) => Request::ModifiedTime(*path),
            Request::Select { prompt, options } => Request::Select {
                prompt: prompt@,
                options: text::views(options@),
            },
            Request::ExtractPath(selection) => Request::ExtractPath(selection@),
            Request::ExtractBranch(selection) => Request::ExtractBranch(selection@),
            Request::RepoStorageDir(repo) => Request::RepoStorageDir(repo@),
            Request::LocalBranches => Request::LocalBranches,
            Request::PathExists(path) => Request::PathExists(*path),
            Request::HeadBranch(path) => Request::HeadBranch(*path),
            Request::RemoveDirectory(path) => Request::RemoveDirectory(*path),
            Request::PruneWorktree(name) => Request::PruneWorktree(name@),
            Request::RemoveOrigin { repo, branch } => Request::RemoveOrigin {
                repo: repo@,
                branch: branch@,
            },
            Request::DeleteBranch(branch) => Request::DeleteBranch(branch@),
            Request::UnmarkBranch { repo, branch } => Request::UnmarkBranch {
                repo: repo@,
                branch: branch@,
            },
            Request::RemoveMapping { repo, branch } => Request::RemoveMapping {
                repo: repo@,
                branch: branch@,
            },
        }
    }
}

/// A result whose value is taken by its view.
pub open spec fn result_view<X: View, E>(r: Result<X, E>) -> Result<X::V, E> {
    match r {
        Ok(x) => Ok(x@),
        Err(e) => Err(e),
    }
}

/// A result that may hold a text, the text taken by its view.
pub open spec fn lookup_view<E>(r: Result<Option<String>, E>) -> Result<Option<Seq<char>>, E> {
    match r {
        Ok(Some(text)) => Ok(Some(text@)),
        Ok(None) => Ok(None),
        Err(e) => Err(e),
    }
}

/// A failure that is told as text, the text taken by its view.
pub open spec fn told_view(r: Result<(), String>) -> Result<(), Seq<char>> {
    match r {
        Ok(()) => Ok(()),
        Err(text) => Err(text@),
    }
}

/// A catalogue, its texts taken by their views.
pub open spec fn catalogue_view(all: Seq<(String, Vec<String>)>) -> CatalogueView {
    Seq::new(all.len(), |i: int| (all[i].0@, text::views(all[i].1@)))
}

impl<E> View for Reply<String, Vec<String>, Catalogue, E> {
    type V = AnswerView<E>;

    open spec fn view(&self) -> AnswerView<E> {
        match *self {
            Reply::StorageOpened(r) => Reply::StorageOpened(r),
            Reply::RepoOpened(r) => Reply::RepoOpened(result_view(r)),
            Reply::CurrentRepo(r) => Reply::CurrentRepo(lookup_view(r)),
            Reply::RepoWorktrees(Ok(names)) => Reply::RepoWorktrees(Ok(text::views(names@))),
            Reply::RepoWorktrees(Err(e)) => Reply::RepoWorktrees(Err(e)),
            Reply::AllWorktrees(Ok(all)) => Reply::AllWorktrees(Ok(catalogue_view(all@))),
            Reply::AllWorktrees(Err(e)) => Reply::AllWorktrees(Err(e)),
            Reply::Located { path, exists } => Reply::Located { path, exists },
            Reply::OriginalBranch(r) => Reply::OriginalBranch(lookup_view(r)),
            Reply::Modified(time) => Reply::Modified(time),
            Reply::Selected(r) => Reply::Selected(result_view(r)),
            Reply::ExtractedPath(r) => Reply::ExtractedPath(r),
            Reply::ExtractedBranch(r) => Reply::ExtractedBranch(result_view(r)),
            Reply::StorageDir(path) => Reply::StorageDir(path),
            Reply::LocalBranches(Ok(Some(names))) => Reply::LocalBranches(
                Ok(Some(text::views(names@))),
            ),
            Reply::LocalBranches(Ok(None)) => Reply::LocalBranches(Ok(None)),
            Reply::LocalBranches(Err(e)) => Reply::LocalBranches(Err(e)),
            Reply::PathExists(exists) => Reply::PathExists(exists),
            Reply::HeadBranch(Ok(branch)) => Reply::HeadBranch(Ok(branch@)),
            Reply::HeadBranch(Err(text)) => Reply::HeadBranch(Err(text@)),
            Reply::DirectoryRemoved(r) => Reply::DirectoryRemoved(r),
            Reply::WorktreePruned(r) => Reply::WorktreePruned(r),
            Reply::OriginRemoved(r) => Reply::OriginRemoved(told_view(r)),
            Reply::BranchDeleted(r) => Reply::BranchDeleted(told_view(r)),
            Reply::BranchUnmarked => Reply::BranchUnmarked,
            Reply::MappingRemoved(r) => Reply::MappingRemoved(told_view(r)),
        }
    }
}

impl View for Line<String> {
    type V = Line<Seq<char>>;

    open spec fn view(&self) -> Line<Seq<char>> {
        match self {
            Line::Stdout(text) => Line::Stdout(text@),
            Line::Stderr(text) => Line::Stderr(text@),
        }
    }
}

impl<E> View for CommandError<String, E> {
    type V = CommandError<Seq<char>, E>;

    open spec fn view(&self) -> CommandError<Seq<char>, E> {
        match *self {
            CommandError::Failed(e) => CommandError::Failed(e),
            CommandError::NoCurrentRepo => CommandError::NoCurrentRepo,
            CommandError::NoWorktrees => CommandError::NoWorktrees,
            CommandError::NoMatch(target) => CommandError::NoMatch(target@),
            CommandError::Ambiguous => CommandError::Ambiguous,
            CommandError::PathMissing(path) => CommandError::PathMissing(path),
            CommandError::InvalidPath(target) => CommandError::InvalidPath(target@),
            CommandError::NoWorktreeForBranch(target) => CommandError::NoWorktreeForBranch(target@),
            CommandError::UnknownBranch(target) => CommandError::UnknownBranch(target@),
            CommandError::DirectoryNotRemoved(e) => CommandError::DirectoryNotRemoved(e),
            CommandError::NotPruned(e) => CommandError::NotPruned(e),
            CommandError::BranchNotDeleted(reason) => CommandError::BranchNotDeleted(reason@),
        }
    }
}

/// The model of how a command ended.
pub open spec fn outcome_view<E>(result: Outcome<E>) -> OutcomeView<E> {
    match result {
        Ok(()) => Ok(()),
        Err(error) => Err(error@),
    }
}

/// The model of a step, its session taken by its view.
pub open spec fn step_view<S: View, E>(step: Step<S, Vec<Line<String>>, Outcome<E>>) -> Step<
    S::V,
    LinesView,
    OutcomeView<E>,
> {
    match step {
        Step::Continue { lines, session } => Step::Continue {
            lines: text::views(lines@),
            session: session@,
        },
        Step::Done { lines, result } => Step::Done {
            lines: text::views(lines@),
            result: outcome_view(result),
        },
    }
}

/// Adds a line for the standard output.
pub(crate) fn say(lines: &mut Vec<Line<String>>, line: String)
    ensures
        text::views(final(lines)@) == text::views(old(lines)@).push(Line::Stdout(line@)),
{
    let ghost before = text::views(lines@);
    let ghost added: Line<Seq<char>> = Line::Stdout(line@);
    lines.push(Line::Stdout(line));
    assert(text::views(lines@) =~= before.push(added));
}

/// Adds a line for the standard error.
pub(crate) fn complain(lines: &mut Vec<Line<String>>, line: String)
    ensures
        text::views(final(lines)@) == text::views(old(lines)@).push(Line::Stderr(line@)),
{
    let ghost before = text::views(lines@);
    let ghost added: Line<Seq<char>> = Line::Stderr(line@);
    lines.push(Line::Stderr(line));
    assert(text::views(lines@) =~= before.push(added));
}

/// No lines.
pub(crate) fn silence() -> (lines: Vec<Line<String>>)
    ensures
        text::views(lines@) == Seq::<Line<Seq<char>>>::empty(),
{
    let lines: Vec<Line<String>> = Vec::new();
    assert(text::views(lines@) =~= Seq::<Line<Seq<char>>>::empty());
    lines
}

/// What an error has to say, beyond what the surroundings reported. Where they
/// reported something and nothing is to be added, there is nothing; where a step of
/// a removal failed, the text says which.
pub open spec fn error_message<E>(error: CommandError<Seq<char>, E>) -> Option<Seq<char>> {
    match error {
        CommandError::Failed(_) => None,
        CommandError::NoCurrentRepo => Some("Failed to determine current repository"@),
        CommandError::NoWorktrees => Some("No worktrees found"@),
        CommandError::NoMatch(target) => Some("No worktree found matching '"@ + target + "'"@),
        CommandError::Ambiguous => Some("Ambiguous worktree name"@),
        CommandError::PathMissing(path) => Some(
            "Worktree path does not exist: "@ + paths::path_display(path),
        ),
        CommandError::InvalidPath(target) => Some("Invalid worktree path: "@ + target),
        CommandError::NoWorktreeForBranch(target) => Some(
            "No worktree found for branch '"@ + target + "'"@,
        ),
        CommandError::UnknownBranch(target) => Some(
            "Cannot determine canonical branch name for '"@ + target
                + "'. The branch mapping file may be missing or corrupted. Please specify the full branch name (e.g., 'feature/branch-name' instead of 'feature-branch-name')"@,
        ),
        CommandError::DirectoryNotRemoved(_) => Some("Failed to remove worktree directory"@),
        CommandError::NotPruned(_) => Some("Failed to remove worktree from git"@),
        CommandError::BranchNotDeleted(reason) => Some("Failed to delete branch: "@ + reason),
    }
}

impl<E> CommandError<String, E> {
    /// The text of the error, or of what is to be added to the reported one.
    pub fn message(&self) -> (message: Option<String>)
        ensures
            message is Some <==> error_message(self@) is Some,
            message matches Some(text) ==> error_message(self@) == Some(text@),
    {
        match self {
            CommandError::Failed(_) => None,
            CommandError::NoCurrentRepo => Some(
                "Failed to determine current repository".to_string(),
            ),
            CommandError::NoWorktrees => Some("No worktrees found".to_string()),
            CommandError::NoMatch(target) => Some(
                "No worktree found matching '".to_string().concat(target.as_str()).concat("'"),
            ),
            CommandError::Ambiguous => Some("Ambiguous worktree name".to_string()),
            CommandError::PathMissing(path) => Some(
                "Worktree path does not exist: ".to_string().concat(paths::display(path).as_str()),
            ),
            CommandError::InvalidPath(target) => Some(
                "Invalid worktree path: ".to_string().concat(target.as_str()),
            ),
            CommandError::NoWorktreeForBranch(target) => Some(
                "No worktree found for branch '".to_string().concat(target.as_str()).concat("'"),
            ),
            CommandError::UnknownBranch(target) => Some(
                "Cannot determine canonical branch name for '".to_string().concat(
                    target.as_str(),
                ).concat(
                    "'. The branch mapping file may be missing or corrupted. Please specify the full branch name (e.g., 'feature/branch-name' instead of 'feature-branch-name')",
                ),
            ),
            CommandError::DirectoryNotRemoved(_) => Some(
                "Failed to remove worktree directory".to_string(),
            ),
            CommandError::NotPruned(_) => Some("Failed to remove worktree from git".to_string()),
            CommandError::BranchNotDeleted(reason) => Some(
                "Failed to delete branch: ".to_string().concat(reason.as_str()),
            ),
        }
    }
}

/// An error says what it is about, in full: what was asked for stands in its text as it
/// was given. Only an error that came from the surroundings has nothing to add.
pub proof fn errors_say_what_they_are_about<E>(e: E, target: Seq<char>, path: PathBuf)
    ensures
        error_message(CommandError::<Seq<char>, E>::Failed(e)) is None,
        error_message(CommandError::<Seq<char>, E>::NoCurrentRepo) == Some(
            "Failed to determine current repository"@,
        ),
        error_message(CommandError::<Seq<char>, E>::NoWorktrees) == Some("No worktrees found"@),
        error_message(CommandError::<Seq<char>, E>::NoMatch(target)) == Some(
            "No worktree found matching '"@ + target + "'"@,
        ),
        error_message(CommandError::<Seq<char>, E>::Ambiguous) == Some("Ambiguous worktree name"@),
        error_message(CommandError::<Seq<char>, E>::PathMissing(path)) == Some(
            "Worktree path does not exist: "@ + paths::path_display(path),
        ),
        error_message(CommandError::<Seq<char>, E>::InvalidPath(target)) == Some(
            "Invalid worktree path: "@ + target,
        ),
        error_message(CommandError::<Seq<char>, E>::NoWorktreeForBranch(target)) == Some(
            "No worktree found for branch '"@ + target + "'"@,
        ),
        error_message(CommandError::<Seq<char>, E>::UnknownBranch(target)) == Some(
            "Cannot determine canonical branch name for '"@ + target
                + "'. The branch mapping file may be missing or corrupted. Please specify the full branch name (e.g., 'feature/branch-name' instead of 'feature-branch-name')"@,
        ),
        error_message(CommandError::<Seq<char>, E>::DirectoryNotRemoved(e)) == Some(
            "Failed to remove worktree directory"@,
        ),
        error_message(CommandError::<Seq<char>, E>::NotPruned(e)) == Some(
            "Failed to remove worktree from git"@,
        ),
        error_message(CommandError::<Seq<char>, E>::BranchNotDeleted(target)) == Some(
            "Failed to delete branch: "@ + target,
        ),
{
}

} // verus!
