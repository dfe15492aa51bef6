//! The surroundings of a command, and what a command comes to in them.
//!
//! A [`World`] answers every request, and answers it the same way whenever it is
//! asked. In a world a command has one outcome, and that outcome can be told without
//! going through the command request by request: that is what the functions here do.
//! The proofs that the commands come to these outcomes are in [`crate::laws`].
use std::path::PathBuf;
use vstd::prelude::*;

use crate::goal;
use crate::goal::Goal;
use crate::jump;
use crate::listing;
use crate::listing::{EntryView, ListedView};
use crate::paths;
use crate::protocol::{
    AnswerView, AskView, CatalogueView, CommandError, Line, LinesView, OutcomeView, Reply, Request,
};
use crate::recency::{Dated, DatedView};
use crate::removal;
use crate::removal::Ticket;
use crate::resolve;
use crate::resolve::{Resolved, ResolutionView};
use crate::text;
use crate::worktrees;
use crate::worktrees::{Lookup, WorktreeView};

verus! {

/// What there is to be told about everything that a command may ask.
pub struct World<E> {
    pub storage: Result<(), E>,
    pub opened_repo: Result<Seq<char>, E>,
    pub current_repo: Result<Option<Seq<char>>, E>,
    pub repo_worktrees: spec_fn(Seq<char>) -> Result<Seq<Seq<char>>, E>,
    pub all_worktrees: Result<CatalogueView, E>,
    pub path_of: spec_fn(Seq<char>, Seq<char>) -> PathBuf,
    pub exists: spec_fn(PathBuf) -> bool,
    pub original: spec_fn(Seq<char>, Seq<char>) -> Result<Option<Seq<char>>, E>,
    pub modified: spec_fn(PathBuf) -> Option<i128>,
    pub choice: spec_fn(Seq<char>, Seq<Seq<char>>) -> Result<Seq<char>, E>,
    pub path_in: spec_fn(Seq<char>) -> Result<PathBuf, E>,
    pub branch_in: spec_fn(Seq<char>) -> Result<Seq<char>, E>,
    pub storage_dir: spec_fn(Seq<char>) -> PathBuf,
    pub local_branches: Result<Option<Seq<Seq<char>>>, E>,
    pub head: spec_fn(PathBuf) -> Result<Seq<char>, Seq<char>>,
    pub directory_removed: spec_fn(PathBuf) -> Result<(), E>,
    pub pruned: spec_fn(Seq<char>) -> Result<(), E>,
    pub origin_removed: spec_fn(Seq<char>, Seq<char>) -> Result<(), Seq<char>>,
    pub branch_deleted: spec_fn(Seq<char>) -> Result<(), Seq<char>>,
    pub mapping_removed: spec_fn(Seq<char>, Seq<char>) -> Result<(), Seq<char>>,
}

/// What a remove command did when it has been run to its end.
pub struct Run<E> {
    /// The changes that it asked for, in order.
    pub changes: Seq<AskView>,
    /// What it put out.
    pub lines: LinesView,
    /// What it came to.
    pub result: OutcomeView<E>,
}

impl<E> World<E> {
    /// The answer to a request.
    pub open spec fn answer(self, ask: AskView) -> AnswerView<E> {
        match ask {
            Request::OpenStorage => Reply::StorageOpened(self.storage),
            Request::OpenCurrentRepo => Reply::RepoOpened(self.opened_repo),
            Request::CurrentRepoName => Reply::CurrentRepo(self.current_repo),
            Request::ListRepoWorktrees(repo) => Reply::RepoWorktrees((self.repo_worktrees)(repo)),
            Request::ListAllWorktrees => Reply::AllWorktrees(self.all_worktrees),
            Request::LocateWorktree { repo, name } => {
                let path = (self.path_of)(repo, name);
                Reply::Located { path, exists: (self.exists)(path) }
            },
            Request::OriginalBranch { repo, name } => Reply::OriginalBranch(
                (self.original)(repo, name),
            ),
            Request::ModifiedTime(path) => Reply::Modified((self.modified)(path)),
            Request::Select { prompt, options } => Reply::Selected((self.choice)(prompt, options)),
            Request::ExtractPath(selection) => Reply::ExtractedPath((self.path_in)(selection)),
            Request::ExtractBranch(selection) => Reply::ExtractedBranch(
                (self.branch_in)(selection),
            ),
            Request::RepoStorageDir(repo) => Reply::StorageDir((self.storage_dir)(repo)),
            Request::LocalBranches => Reply::LocalBranches(self.local_branches),
            Request::PathExists(path) => Reply::PathExists((self.exists)(path)),
            Request::HeadBranch(path) => Reply::HeadBranch((self.head)(path)),
            Request::RemoveDirectory(path) => Reply::DirectoryRemoved(
                (self.directory_removed)(path),
            ),
            Request::PruneWorktree(name) => Reply::WorktreePruned((self.pruned)(name)),
            Request::RemoveOrigin { repo, branch } => Reply::OriginRemoved(
                (self.origin_removed)(repo, branch),
            ),
            Request::DeleteBranch(branch) => Reply::BranchDeleted((self.branch_deleted)(branch)),
            Request::UnmarkBranch { .. } => Reply::BranchUnmarked,
            Request::RemoveMapping { repo, branch } => Reply::MappingRemoved(
                (self.mapping_removed)(repo, branch),
            ),
        }
    }

    /// Where an entry of the storage is.
    pub open spec fn path_of_entry(self, entry: EntryView) -> PathBuf {
        (self.path_of)(entry.repo, entry.name)
    }

    /// Whether something is where the storage has an entry.
    pub open spec fn is_present(self, entry: EntryView) -> bool {
        (self.exists)(self.path_of_entry(entry))
    }

    /// What is on record for an entry.
    pub open spec fn record_of(self, entry: EntryView) -> Result<Option<Seq<char>>, E> {
        (self.original)(entry.repo, entry.name)
    }

    /// What the storage lists.
    pub open spec fn entries(self, current_repo_only: bool) -> Result<Seq<EntryView>, E> {
        if current_repo_only {
            match self.current_repo {
                Ok(Some(repo)) => match (self.repo_worktrees)(repo) {
                    Ok(names) => Ok(listing::entries_of(repo, names)),
                    Err(e) => Err(e),
                },
                Ok(None) => Ok(Seq::empty()),
                Err(e) => Err(e),
            }
        } else {
            match self.all_worktrees {
                Ok(all) => Ok(listing::all_entries(all)),
                Err(e) => Err(e),
            }
        }
    }

    /// Those of some entries that are there.
    pub open spec fn present(self, entries: Seq<EntryView>) -> Seq<EntryView> {
        entries.filter(|entry: EntryView| self.is_present(entry))
    }

    /// Those of some entries whose record cannot be read.
    pub open spec fn unreadable(self, entries: Seq<EntryView>) -> Seq<EntryView> {
        entries.filter(|entry: EntryView| self.record_of(entry) is Err)
    }

    /// The worktree that an entry stands for, where its record can be read.
    pub open spec fn worktree_of(self, entry: EntryView) -> WorktreeView {
        listing::named(entry, self.path_of_entry(entry), self.record_of(entry)->Ok_0)
    }

    /// A worktree with the time of its last modification.
    pub open spec fn dated(self, worktree: WorktreeView) -> DatedView {
        Dated { worktree, modified: (self.modified)(worktree.path) }
    }

    /// The worktrees that are there, of those that the storage lists: the most
    /// recently modified first. The first record that cannot be read spoils it.
    pub open spec fn available(self, entries: Seq<EntryView>) -> ListedView<E> {
        let present = self.present(entries);
        let unreadable = self.unreadable(present);
        if unreadable.len() > 0 {
            Err(self.record_of(unreadable[0])->Err_0)
        } else {
            Ok(
                listing::in_order(
                    present.map_values(|entry: EntryView| self.dated(self.worktree_of(entry))),
                ),
            )
        }
    }

    /// What a listing comes to.
    pub open spec fn listing(self, current_repo_only: bool) -> ListedView<E> {
        match self.entries(current_repo_only) {
            Ok(entries) => self.available(entries),
            Err(e) => Err(e),
        }
    }

    /// Whether the current repository is asked about and there is none.
    pub open spec fn lacks_current_repo(self, current_repo_only: bool) -> bool {
        current_repo_only && (self.current_repo matches Ok(repo) && repo is None)
    }

    /// What a jump puts out and comes to.
    pub open spec fn jump(self, goal: Goal<Seq<char>>, current_repo_only: bool) -> (
        LinesView,
        OutcomeView<E>,
    ) {
        match (self.storage, self.listing(current_repo_only)) {
            (Err(e), _) => (Seq::empty(), Err(CommandError::Failed(e))),
            (Ok(()), Err(e)) => (Seq::empty(), Err(CommandError::Failed(e))),
            (Ok(()), Ok(worktrees)) => match goal {
                Goal::Complete => if self.lacks_current_repo(current_repo_only) {
                    (Seq::empty(), Err(CommandError::NoCurrentRepo))
                } else {
                    (goal::completion_lines(worktrees), Ok(()))
                },
                Goal::Choose => match self.chosen("Jump to worktree:"@, worktrees) {
                    Ok(selection) => match (self.path_in)(selection) {
                        Ok(path) => (seq![Line::Stdout(paths::path_display(path))], Ok(())),
                        Err(e) => (Seq::empty(), Err(CommandError::Failed(e))),
                    },
                    Err(error) => (Seq::empty(), Err(error)),
                },
                Goal::Named(target) => match worktrees::lookup(worktrees, target) {
                    Lookup::Found(path) => (
                        seq![Line::Stdout(paths::path_display(path))],
                        Ok(()),
                    ),
                    Lookup::Missing => (Seq::empty(), Err(CommandError::NoMatch(target))),
                    Lookup::Ambiguous(matches) => (
                        jump::ambiguity(target, matches),
                        Err(CommandError::Ambiguous),
                    ),
                },
            },
        }
    }

    /// The option that the user chooses, if there is anything to choose from.
    pub open spec fn chosen(self, prompt: Seq<char>, worktrees: Seq<WorktreeView>) -> Result<
        Seq<char>,
        CommandError<Seq<char>, E>,
    > {
        match worktrees::menu(prompt, worktrees) {
            Some(menu) => match (self.choice)(menu.prompt, menu.options) {
                Ok(selection) => Ok(selection),
                Err(e) => Err(CommandError::Failed(e)),
            },
            None => Err(CommandError::NoWorktrees),
        }
    }

    /// The worktree and the branch that the target of a removal means.
    ///
    /// An absolute path means the directory it leads to in the storage. A name with
    /// special characters is a branch. Any other name is taken for a directory name
    /// where it is on record as one; else it is a branch if git knows it as one and
    /// its worktree is there.
    pub open spec fn resolution(self, target: Seq<char>, repo: Seq<char>) -> ResolutionView<E> {
        let path = (self.path_of)(repo, target);
        let record = (self.original)(repo, target);
        if paths::path_is_absolute(paths::path_from_text(target)) {
            match resolve::directory_below(target, (self.storage_dir)(repo)) {
                None => Err(CommandError::InvalidPath(target)),
                Some(name) => match (self.original)(repo, name) {
                    Err(e) => Err(CommandError::Failed(e)),
                    Ok(branch) => Ok(
                        Resolved {
                            path: paths::path_from_text(target),
                            branch: if branch is Some {
                                branch->0
                            } else {
                                name
                            },
                        },
                    ),
                },
            }
        } else if text::has_special(target) {
            if (self.exists)(path) {
                Ok(Resolved { path, branch: target })
            } else {
                Err(CommandError::NoWorktreeForBranch(target))
            }
        } else {
            match record {
                Err(e) => Err(CommandError::Failed(e)),
                Ok(Some(branch)) => {
                    let elsewhere = (self.path_of)(repo, branch);
                    if (self.exists)(path) {
                        Ok(Resolved { path, branch })
                    } else if (self.exists)(elsewhere) {
                        Ok(Resolved { path: elsewhere, branch })
                    } else {
                        Err(CommandError::NoMatch(target))
                    }
                },
                Ok(None) => if !(self.exists)(path) {
                    Err(CommandError::NoMatch(target))
                } else {
                    match self.local_branches {
                        Err(e) => Err(CommandError::Failed(e)),
                        Ok(known) => if known is Some && known->0.contains(target) {
                            Ok(Resolved { path, branch: target })
                        } else {
                            Err(CommandError::UnknownBranch(target))
                        },
                    }
                },
            }
        }
    }

    /// The worktree that a remove command is about, and its branch.
    pub open spec fn victim(
        self,
        target: Option<Seq<char>>,
        repo: Seq<char>,
        current_repo_only: bool,
    ) -> ResolutionView<E> {
        match target {
            Some(target) => self.resolution(target, repo),
            None => match self.listing(current_repo_only) {
                Err(e) => Err(CommandError::Failed(e)),
                Ok(worktrees) => match self.chosen("Select worktree to remove:"@, worktrees) {
                    Err(error) => Err(error),
                    Ok(selection) => match ((self.path_in)(selection), (self.branch_in)(selection)) {
                        (Err(e), _) => Err(CommandError::Failed(e)),
                        (Ok(_), Err(e)) => Err(CommandError::Failed(e)),
                        (Ok(path), Ok(branch)) => Ok(Resolved { path, branch }),
                    },
                },
            },
        }
    }

    /// What a remove command does.
    pub open spec fn remove(
        self,
        goal: Goal<Seq<char>>,
        preserve_branch: bool,
        current_repo_only: bool,
    ) -> Run<E> {
        let target = match goal {
            Goal::Named(target) => Some(target),
            _ => None,
        };
        match (self.storage, goal, self.opened_repo) {
            (Err(e), _, _) => stopped(CommandError::Failed(e)),
            (Ok(()), Goal::Complete, _) => match self.listing(current_repo_only) {
                Ok(worktrees) => Run {
                    changes: Seq::empty(),
                    lines: goal::completion_lines(worktrees),
                    result: Ok(()),
                },
                Err(e) => stopped(CommandError::Failed(e)),
            },
            (Ok(()), _, Err(e)) => stopped(CommandError::Failed(e)),
            (Ok(()), _, Ok(repo)) => match self.victim(target, repo, current_repo_only) {
                Ok(resolved) => {
                    let ticket = Ticket {
                        repo,
                        path: resolved.path,
                        branch: resolved.branch,
                        preserve_branch,
                    };
                    Run {
                        changes: self.changes(ticket),
                        lines: self.removal_lines(ticket),
                        result: self.removal(ticket),
                    }
                },
                Err(error) => stopped(error),
            },
        }
    }

    /// The branch of the worktree that is to be removed: the one that is checked out
    /// in it; failing that, the one on record for its directory; failing that, the
    /// one that was given.
    pub open spec fn branch_of(self, ticket: Ticket<Seq<char>>) -> Seq<char> {
        match (self.head)(ticket.path) {
            Ok(branch) => branch,
            Err(_) => match (self.original)(ticket.repo, ticket.name()) {
                Ok(Some(branch)) => branch,
                _ => ticket.branch,
            },
        }
    }

    /// What a removal changes, in order.
    pub open spec fn changes(self, ticket: Ticket<Seq<char>>) -> Seq<AskView> {
        let repo = ticket.repo;
        let branch = self.branch_of(ticket);
        let directory = seq![Request::RemoveDirectory(ticket.path)];
        let record = directory.push(Request::PruneWorktree(ticket.name()));
        let origin = record.push(Request::RemoveOrigin { repo, branch });
        let deletion = origin.push(Request::DeleteBranch(branch));
        if !(self.exists)(ticket.path) {
            Seq::empty()
        } else if (self.directory_removed)(ticket.path) is Err {
            directory
        } else if (self.pruned)(ticket.name()) is Err {
            record
        } else if ticket.preserve_branch {
            origin
        } else if (self.branch_deleted)(branch) is Err {
            deletion
        } else {
            deletion.push(Request::UnmarkBranch { repo, branch }).push(
                Request::RemoveMapping { repo, branch },
            )
        }
    }

    /// Whether the directory of a worktree and git's record of it can be removed.
    pub open spec fn is_removable(self, ticket: Ticket<Seq<char>>) -> bool {
        (self.directory_removed)(ticket.path) is Ok && (self.pruned)(ticket.name()) is Ok
    }

    /// What a removal comes to. It fails where the worktree is not there, where its
    /// directory or git's record of it cannot be removed, or where its branch is to go
    /// and cannot be deleted; and nowhere else.
    pub open spec fn removal(self, ticket: Ticket<Seq<char>>) -> OutcomeView<E> {
        if !(self.exists)(ticket.path) {
            Err(CommandError::PathMissing(ticket.path))
        } else if (self.directory_removed)(ticket.path) is Err {
            Err(CommandError::DirectoryNotRemoved((self.directory_removed)(ticket.path)->Err_0))
        } else if (self.pruned)(ticket.name()) is Err {
            Err(CommandError::NotPruned((self.pruned)(ticket.name())->Err_0))
        } else if !ticket.preserve_branch && (self.branch_deleted)(self.branch_of(ticket)) is Err {
            Err(
                CommandError::BranchNotDeleted(
                    (self.branch_deleted)(self.branch_of(ticket))->Err_0,
                ),
            )
        } else {
            Ok(())
        }
    }

    /// What is said while the branch of a worktree is being made out.
    pub open spec fn branch_lines(self, ticket: Ticket<Seq<char>>) -> LinesView {
        match (self.head)(ticket.path) {
            Ok(branch) => removal::correction("HEAD"@, branch, ticket.branch),
            Err(reason) => seq![
                Line::Stdout(
                    "⚠ Warning: Could not resolve branch from HEAD ("@ + reason
                        + "). Attempting to use branch mapping..."@,
                ),
            ] + match (self.original)(ticket.repo, ticket.name()) {
                Ok(Some(branch)) => removal::correction("mapping"@, branch, ticket.branch),
                _ => seq![
                    Line::Stdout(
                        "⚠ Warning: Branch mapping not found. Using provided value: "@
                            + ticket.branch,
                    ),
                ],
            },
        }
    }

    /// What is said about the branch once the worktree is gone.
    pub open spec fn deletion_lines(self, ticket: Ticket<Seq<char>>) -> LinesView {
        let branch = self.branch_of(ticket);
        if ticket.preserve_branch {
            seq![Line::Stdout("Branch '"@ + branch + "' preserved (not deleted)"@)]
        } else {
            let deleted = (self.branch_deleted)(branch);
            seq![Line::Stdout("Deleting branch: "@ + branch)] + match deleted {
                Err(_) => removal::warning("delete branch"@, deleted),
                Ok(()) => seq![Line::Stdout("✓ Branch deleted successfully"@)] + removal::warning(
                    "remove branch mapping"@,
                    (self.mapping_removed)(ticket.repo, branch),
                ),
            }
        }
    }

    /// What a removal puts out.
    pub open spec fn removal_lines(self, ticket: Ticket<Seq<char>>) -> LinesView {
        let begun = removal::announcement(ticket) + self.branch_lines(ticket);
        if !(self.exists)(ticket.path) {
            Seq::empty()
        } else if !self.is_removable(ticket) {
            begun
        } else {
            begun + removal::warning(
                "clean up origin information"@,
                (self.origin_removed)(ticket.repo, self.branch_of(ticket)),
            ) + self.deletion_lines(ticket) + removal::farewell()
        }
    }
}

/// A remove command that fails before it changes or says anything.
pub open spec fn stopped<E>(error: CommandError<Seq<char>, E>) -> Run<E> {
    Run { changes: Seq::empty(), lines: Seq::empty(), result: Err(error) }
}

/// Whether a request asks for a change, and not only to be told something.
pub open spec fn is_change(ask: AskView) -> bool {
    match ask {
        Request::RemoveDirectory(_) => true,
        Request::PruneWorktree(_) => true,
        Request::RemoveOrigin { .. } => true,
        Request::DeleteBranch(_) => true,
        Request::UnmarkBranch { .. } => true,
        Request::RemoveMapping { .. } => true,
        _ => false,
    }
}

/// Whether a reply answers a request.
pub open spec fn answers<E>(reply: AnswerView<E>, ask: AskView) -> bool {
    match (ask, reply) {
        (Request::OpenStorage, Reply::StorageOpened(_)) => true,
        (Request::OpenCurrentRepo, Reply::RepoOpened(_)) => true,
        (Request::CurrentRepoName, Reply::CurrentRepo(_)) => true,
        (Request::ListRepoWorktrees(_), Reply::RepoWorktrees(_)) => true,
        (Request::ListAllWorktrees, Reply::AllWorktrees(_)) => true,
        (Request::LocateWorktree { .. }, Reply::Located { .. }) => true,
        (Request::OriginalBranch { .. }, Reply::OriginalBranch(_)) => true,
        (Request::ModifiedTime(_), Reply::Modified(_)) => true,
        (Request::Select { .. }, Reply::Selected(_)) => true,
        (Request::ExtractPath(_), Reply::ExtractedPath(_)) => true,
        (Request::ExtractBranch(_), Reply::ExtractedBranch(_)) => true,
        (Request::RepoStorageDir(_), Reply::StorageDir(_)) => true,
        (Request::LocalBranches, Reply::LocalBranches(_)) => true,
        (Request::PathExists(_), Reply::PathExists(_)) => true,
        (Request::HeadBranch(_), Reply::HeadBranch(_)) => true,
        (Request::RemoveDirectory(_), Reply::DirectoryRemoved(_)) => true,
        (Request::PruneWorktree(_), Reply::WorktreePruned(_)) => true,
        (Request::RemoveOrigin { .. }, Reply::OriginRemoved(_)) => true,
        (Request::DeleteBranch(_), Reply::BranchDeleted(_)) => true,
        (Request::UnmarkBranch { .. }, Reply::BranchUnmarked) => true,
        (Request::RemoveMapping { .. }, Reply::MappingRemoved(_)) => true,
        _ => false,
    }
}

} // verus!
