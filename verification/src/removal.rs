//! Removing one worktree: its directory, git's record of it, and its branch.
use std::path::PathBuf;
use vstd::prelude::*;

use crate::paths;
use crate::protocol;
use crate::protocol::{
    Answer, AnswerView, Ask, AskView, CommandError, Line, LinesView, Outcome, OutcomeView, Reply,
    Request, Step,
};
use crate::text;

verus! {

/// What is to be removed: the worktree at `path`, which is said to be of `branch`.
pub struct Ticket<T> {
    pub repo: T,
    pub path: PathBuf,
    pub branch: T,
    pub preserve_branch: bool,
}

/// How far a removal has come. From `RecheckPath` on it knows the branch.
pub enum Stage<T> {
    /// Is the worktree there?
    CheckPath,
    /// Which branch is checked out in it?
    ReadHead,
    /// Its HEAD does not tell. Which branch is on record for it?
    LookUpMapping,
    /// Is its directory there?
    RecheckPath(T),
    /// Its directory is to go.
    RemoveDirectory(T),
    /// Git's record of it is to go.
    Prune(T),
    /// The stored origin is to go.
    RemoveOrigin(T),
    /// The branch is to go.
    DeleteBranch(T),
    /// The branch is gone. Its mark is to go too.
    Unmark(T),
    /// And its mapping.
    RemoveMapping(T),
}

/// A removal, between two requests.
pub struct Removal<T> {
    pub ticket: Ticket<T>,
    pub stage: Stage<T>,
}

/// The model of a removal.
pub type RemovalView = Removal<Seq<char>>;

impl View for Ticket<String> {
    type V = Ticket<Seq<char>>;

    open spec fn view(&self) -> Ticket<Seq<char>> {
        Ticket {
            repo: self.repo@,
            path: self.path,
            branch: self.branch@,
            preserve_branch: self.preserve_branch,
        }
    }
}

impl View for Stage<String> {
    type V = Stage<Seq<char>>;

    open spec fn view(&self) -> Stage<Seq<char>> {
        match *self {
            Stage::CheckPath => Stage::CheckPath,
            Stage::ReadHead => Stage::ReadHead,
            Stage::LookUpMapping => Stage::LookUpMapping,
            Stage::RecheckPath(b) => Stage::RecheckPath(b@),
            Stage::RemoveDirectory(b) => Stage::RemoveDirectory(b@),
            Stage::Prune(b) => Stage::Prune(b@),
            Stage::RemoveOrigin(b) => Stage::RemoveOrigin(b@),
            Stage::DeleteBranch(b) => Stage::DeleteBranch(b@),
            Stage::Unmark(b) => Stage::Unmark(b@),
            Stage::RemoveMapping(b) => Stage::RemoveMapping(b@),
        }
    }
}

impl View for Removal<String> {
    type V = RemovalView;

    open spec fn view(&self) -> RemovalView {
        Removal { ticket: self.ticket@, stage: self.stage@ }
    }
}

/// Says that a removal begins.
pub open spec fn announcement(ticket: Ticket<Seq<char>>) -> LinesView {
    seq![
        Line::Stdout("Removing worktree: "@ + paths::path_display(ticket.path)),
        Line::Stdout("Branch: "@ + ticket.branch),
    ]
}

/// Says by what means the branch became known, where it is not the one that was given.
pub open spec fn correction(means: Seq<char>, branch: Seq<char>, given: Seq<char>) -> LinesView {
    if branch == given {
        Seq::empty()
    } else {
        seq![Line::Stdout("Resolved branch from "@ + means + ": "@ + branch + " (was: "@ + given + ")"@)]
    }
}

/// A warning about something that failed without stopping the removal.
pub open spec fn warning(what: Seq<char>, failed: Result<(), Seq<char>>) -> LinesView {
    match failed {
        Ok(()) => Seq::empty(),
        Err(reason) => seq![Line::Stdout("⚠ Warning: Failed to "@ + what + ": "@ + reason)],
    }
}

/// Says that the worktree is gone. What becomes of its branch is another matter.
pub open spec fn farewell() -> LinesView {
    seq![Line::Stdout("✓ Worktree removed successfully!"@)]
}

impl Ticket<Seq<char>> {
    /// The name under which the storage and git know the worktree.
    pub open spec fn name(self) -> Seq<char> {
        paths::directory_name(self.path, self.branch)
    }
}

impl Removal<Seq<char>> {
    /// What a removal asks for.
    pub open spec fn request(self) -> AskView {
        let ticket = self.ticket;
        match self.stage {
            Stage::CheckPath => Request::PathExists(ticket.path),
            Stage::ReadHead => Request::HeadBranch(ticket.path),
            Stage::LookUpMapping => Request::OriginalBranch {
                repo: ticket.repo,
                name: ticket.name(),
            },
            Stage::RecheckPath(_) => Request::PathExists(ticket.path),
            Stage::RemoveDirectory(_) => Request::RemoveDirectory(ticket.path),
            Stage::Prune(_) => Request::PruneWorktree(ticket.name()),
            Stage::RemoveOrigin(branch) => Request::RemoveOrigin { repo: ticket.repo, branch },
            Stage::DeleteBranch(branch) => Request::DeleteBranch(branch),
            Stage::Unmark(branch) => Request::UnmarkBranch { repo: ticket.repo, branch },
            Stage::RemoveMapping(branch) => Request::RemoveMapping { repo: ticket.repo, branch },
        }
    }

    /// The removal at another stage, after some lines.
    pub open spec fn proceed<E>(self, lines: LinesView, stage: Stage<Seq<char>>) -> Step<
        RemovalView,
        LinesView,
        OutcomeView<E>,
    > {
        Step::Continue { lines, session: Removal { ticket: self.ticket, stage } }
    }

    /// Where a removal stands after a reply. One that does not answer what was asked
    /// changes nothing.
    pub open spec fn after<E>(self, reply: AnswerView<E>) -> Step<
        RemovalView,
        LinesView,
        OutcomeView<E>,
    > {
        let ticket = self.ticket;
        let none = Seq::<Line<Seq<char>>>::empty();
        match (self.stage, reply) {
            (Stage::CheckPath, Reply::PathExists(exists)) => if exists {
                self.proceed(announcement(ticket), Stage::ReadHead)
            } else {
                Step::Done { lines: none, result: Err(CommandError::PathMissing(ticket.path)) }
            },
            (Stage::ReadHead, Reply::HeadBranch(r)) => match r {
                Ok(branch) => self.proceed(
                    correction("HEAD"@, branch, ticket.branch),
                    Stage::RecheckPath(branch),
                ),
                Err(reason) => self.proceed(
                    seq![
                        Line::Stdout(
                            "⚠ Warning: Could not resolve branch from HEAD ("@ + reason
                                + "). Attempting to use branch mapping..."@,
                        ),
                    ],
                    Stage::LookUpMapping,
                ),
            },
            (Stage::LookUpMapping, Reply::OriginalBranch(r)) => match r {
                Ok(Some(branch)) => self.proceed(
                    correction("mapping"@, branch, ticket.branch),
                    Stage::RecheckPath(branch),
                ),
                _ => self.proceed(
                    seq![
                        Line::Stdout(
                            "⚠ Warning: Branch mapping not found. Using provided value: "@
                                + ticket.branch,
                        ),
                    ],
                    Stage::RecheckPath(ticket.branch),
                ),
            },
            (Stage::RecheckPath(branch), Reply::PathExists(exists)) => self.proceed(
                none,
                if exists {
                    Stage::RemoveDirectory(branch)
                } else {
                    Stage::Prune(branch)
                },
            ),
            (Stage::RemoveDirectory(branch), Reply::DirectoryRemoved(r)) => match r {
                Ok(()) => self.proceed(none, Stage::Prune(branch)),
                Err(e) => Step::Done {
                    lines: none,
                    result: Err(CommandError::DirectoryNotRemoved(e)),
                },
            },
            (Stage::Prune(branch), Reply::WorktreePruned(r)) => match r {
                Ok(()) => self.proceed(none, Stage::RemoveOrigin(branch)),
                Err(e) => Step::Done { lines: none, result: Err(CommandError::NotPruned(e)) },
            },
            (Stage::RemoveOrigin(branch), Reply::OriginRemoved(r)) => {
                let warned = warning("clean up origin information"@, r);
                if ticket.preserve_branch {
                    Step::Done {
                        lines: warned.push(
                            Line::Stdout("Branch '"@ + branch + "' preserved (not deleted)"@),
                        ) + farewell(),
                        result: Ok(()),
                    }
                } else {
                    self.proceed(
                        warned.push(Line::Stdout("Deleting branch: "@ + branch)),
                        Stage::DeleteBranch(branch),
                    )
                }
            },
            (Stage::DeleteBranch(branch), Reply::BranchDeleted(r)) => match r {
                Ok(()) => self.proceed(
                    seq![Line::Stdout("✓ Branch deleted successfully"@)],
                    Stage::Unmark(branch),
                ),
                Err(reason) => Step::Done {
                    lines: warning("delete branch"@, r) + farewell(),
                    result: Err(CommandError::BranchNotDeleted(reason)),
                },
            },
            (Stage::Unmark(branch), Reply::BranchUnmarked) => self.proceed(
                none,
                Stage::RemoveMapping(branch),
            ),
            (Stage::RemoveMapping(_), Reply::MappingRemoved(r)) => Step::Done {
                lines: warning("remove branch mapping"@, r) + farewell(),
                result: Ok(()),
            },
            _ => Step::Continue { lines: none, session: self },
        }
    }
}

/// The removal of a worktree, before anything is done.
pub(crate) fn start_removal(repo: String, path: PathBuf, branch: String, preserve_branch: bool) -> (removal:
    Removal<String>)
    ensures
        removal@ == (Removal {
            ticket: Ticket { repo: repo@, path, branch: branch@, preserve_branch },
            stage: Stage::CheckPath,
        }),
{
    Removal {
        ticket: Ticket { repo, path, branch, preserve_branch },
        stage: Stage::CheckPath,
    }
}

/// Says by what means the branch became known, where it is not the one that was given.
fn correct(means: &str, branch: &String, given: &String) -> (lines: Vec<Line<String>>)
    ensures
        text::views(lines@) == correction(means@, branch@, given@),
{
    let mut lines = protocol::silence();
    if !(*branch == *given) {
        protocol::say(
            &mut lines,
            "Resolved branch from ".to_string().concat(means).concat(": ").concat(
                branch.as_str(),
            ).concat(" (was: ").concat(given.as_str()).concat(")"),
        );
    }
    lines
}

/// A warning about something that failed without stopping the removal.
fn warn(what: &str, failed: Result<(), String>) -> (lines: Vec<Line<String>>)
    ensures
        text::views(lines@) == warning(what@, protocol::told_view(failed)),
{
    let mut lines = protocol::silence();
    match failed {
        Ok(()) => {},
        Err(reason) => {
            protocol::say(
                &mut lines,
                "⚠ Warning: Failed to ".to_string().concat(what).concat(": ").concat(
                    reason.as_str(),
                ),
            );
        },
    }
    lines
}

/// Says that the worktree is gone.
fn bid_farewell(lines: &mut Vec<Line<String>>)
    ensures
        text::views(final(lines)@) == text::views(old(lines)@) + farewell(),
{
    let ghost before = text::views(lines@);
    protocol::say(lines, "✓ Worktree removed successfully!".to_string());
    assert(text::views(lines@) =~= before + farewell());
}

impl Removal<String> {
    /// What the removal asks for.
    pub fn request(&self) -> (ask: Ask)
        ensures
            ask@ == self@.request(),
    {
        let ticket = &self.ticket;
        match &self.stage {
            Stage::CheckPath => Request::PathExists(ticket.path.clone()),
            Stage::ReadHead => Request::HeadBranch(ticket.path.clone()),
            Stage::LookUpMapping => Request::OriginalBranch {
                repo: ticket.repo.clone(),
                name: paths::directory_name_or(&ticket.path, &ticket.branch),
            },
            Stage::RecheckPath(_) => Request::PathExists(ticket.path.clone()),
            Stage::RemoveDirectory(_) => Request::RemoveDirectory(ticket.path.clone()),
            Stage::Prune(_) => Request::PruneWorktree(
                paths::directory_name_or(&ticket.path, &ticket.branch),
            ),
            Stage::RemoveOrigin(branch) => Request::RemoveOrigin {
                repo: ticket.repo.clone(),
                branch: branch.clone(),
            },
            Stage::DeleteBranch(branch) => Request::DeleteBranch(branch.clone()),
            Stage::Unmark(branch) => Request::UnmarkBranch {
                repo: ticket.repo.clone(),
                branch: branch.clone(),
            },
            Stage::RemoveMapping(branch) => Request::RemoveMapping {
                repo: ticket.repo.clone(),
                branch: branch.clone(),
            },
        }
    }

    /// Takes a reply, and goes on or ends.
    pub fn resume<E>(self, reply: Answer<E>) -> (step: Step<
        Removal<String>,
        Vec<Line<String>>,
        Outcome<E>,
    >)
        ensures
            protocol::step_view(step) == self@.after(reply@),
    {
        let mut lines = protocol::silence();
        let ticket = self.ticket;
        match (self.stage, reply) {
            (Stage::CheckPath, Reply::PathExists(exists)) => {
                if exists {
                    protocol::say(
                        &mut lines,
                        "Removing worktree: ".to_string().concat(
                            paths::display(&ticket.path).as_str(),
                        ),
                    );
                    protocol::say(
                        &mut lines,
                        "Branch: ".to_string().concat(ticket.branch.as_str()),
                    );
                    assert(text::views(lines@) =~= announcement(ticket@));
                    Step::Continue { lines, session: Removal { ticket, stage: Stage::ReadHead } }
                } else {
                    Step::Done { lines, result: Err(CommandError::PathMissing(ticket.path)) }
                }
            },
            (Stage::ReadHead, Reply::HeadBranch(r)) => match r {
                Ok(branch) => {
                    let lines = correct("HEAD", &branch, &ticket.branch);
                    Step::Continue {
                        lines,
                        session: Removal { ticket, stage: Stage::RecheckPath(branch) },
                    }
                },
                Err(reason) => {
                    protocol::say(
                        &mut lines,
                        "⚠ Warning: Could not resolve branch from HEAD (".to_string().concat(
                            reason.as_str(),
                        ).concat("). Attempting to use branch mapping..."),
                    );
                    Step::Continue {
                        lines,
                        session: Removal { ticket, stage: Stage::LookUpMapping },
                    }
                },
            },
            (Stage::LookUpMapping, Reply::OriginalBranch(r)) => match r {
                Ok(Some(branch)) => {
                    let lines = correct("mapping", &branch, &ticket.branch);
                    Step::Continue {
                        lines,
                        session: Removal { ticket, stage: Stage::RecheckPath(branch) },
                    }
                },
                _ => {
                    protocol::say(
                        &mut lines,
                        "⚠ Warning: Branch mapping not found. Using provided value: ".to_string().concat(
                        ticket.branch.as_str()),
                    );
                    let branch = ticket.branch.clone();
                    Step::Continue {
                        lines,
                        session: Removal { ticket, stage: Stage::RecheckPath(branch) },
                    }
                },
            },
            (Stage::RecheckPath(branch), Reply::PathExists(exists)) => {
                let stage = if exists {
                    Stage::RemoveDirectory(branch)
                } else {
                    Stage::Prune(branch)
                };
                Step::Continue { lines, session: Removal { ticket, stage } }
            },
            (Stage::RemoveDirectory(branch), Reply::DirectoryRemoved(r)) => match r {
                Ok(()) => Step::Continue {
                    lines,
                    session: Removal { ticket, stage: Stage::Prune(branch) },
                },
                Err(e) => Step::Done { lines, result: Err(CommandError::DirectoryNotRemoved(e)) },
            },
            (Stage::Prune(branch), Reply::WorktreePruned(r)) => match r {
                Ok(()) => Step::Continue {
                    lines,
                    session: Removal { ticket, stage: Stage::RemoveOrigin(branch) },
                },
                Err(e) => Step::Done { lines, result: Err(CommandError::NotPruned(e)) },
            },
            (Stage::RemoveOrigin(branch), Reply::OriginRemoved(r)) => {
                let mut lines = warn("clean up origin information", r);
                if ticket.preserve_branch {
                    protocol::say(
                        &mut lines,
                        "Branch '".to_string().concat(branch.as_str()).concat(
                            "' preserved (not deleted)",
                        ),
                    );
                    bid_farewell(&mut lines);
                    Step::Done { lines, result: Ok(()) }
                } else {
                    protocol::say(
                        &mut lines,
                        "Deleting branch: ".to_string().concat(branch.as_str()),
                    );
                    Step::Continue {
                        lines,
                        session: Removal { ticket, stage: Stage::DeleteBranch(branch) },
                    }
                }
            },
            (Stage::DeleteBranch(branch), Reply::BranchDeleted(r)) => match r {
                Ok(()) => {
                    protocol::say(&mut lines, "✓ Branch deleted successfully".to_string());
                    Step::Continue {
                        lines,
                        session: Removal { ticket, stage: Stage::Unmark(branch) },
                    }
                },
                Err(reason) => {
                    let mut lines = warn("delete branch", Err(reason.clone()));
                    bid_farewell(&mut lines);
                    Step::Done { lines, result: Err(CommandError::BranchNotDeleted(reason)) }
                },
            },
            (Stage::Unmark(branch), Reply::BranchUnmarked) => Step::Continue {
                lines,
                session: Removal { ticket, stage: Stage::RemoveMapping(branch) },
            },
            (Stage::RemoveMapping(_), Reply::MappingRemoved(r)) => {
                let mut lines = warn("remove branch mapping", r);
                bid_farewell(&mut lines);
                Step::Done { lines, result: Ok(()) }
            },
            (stage, _) => Step::Continue { lines, session: Removal { ticket, stage } },
        }
    }
}

} // verus!
