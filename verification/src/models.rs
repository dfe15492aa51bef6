//! That the models say of the values what the values are.
//!
//! Every contract speaks of values by their views. The laws here say of each view that it
//! keeps the shape of the value, and every text, path and number in its place.
use std::collections::VecDeque;
use std::path::PathBuf;
use vstd::prelude::*;

use crate::goal;
use crate::goal::Goal;
use crate::jump::{Jump, JumpView};
use crate::listing;
use crate::listing::{Entry, Listing, ListingView};
use crate::protocol;
use crate::protocol::{
    Answer, AnswerView, Ask, AskView, CommandError, Line, Outcome, Progress, Reply, Request, Step,
};
use crate::recency::Dated;
use crate::removal::{Removal, Stage, Ticket};
use crate::remove::{Remove, RemoveView};
use crate::resolve;
use crate::resolve::{Resolved, Resolver, ResolverView};
use crate::worktrees::{Lookup, Menu, Worktree, WorktreeView};

verus! {

/// A request is viewed as the same request for the same things.
pub proof fn requests_keep_their_parts(a: String, b: String, path: PathBuf)
    ensures
        Ask::OpenStorage@ == AskView::OpenStorage,
        Ask::OpenCurrentRepo@ == AskView::OpenCurrentRepo,
        Ask::CurrentRepoName@ == AskView::CurrentRepoName,
        Ask::ListRepoWorktrees(a)@ == AskView::ListRepoWorktrees(a@),
        Ask::ListAllWorktrees@ == AskView::ListAllWorktrees,
        (Ask::LocateWorktree { repo: a, name: b })@ == (AskView::LocateWorktree {
            repo: a@,
            name: b@,
        }),
        (Ask::OriginalBranch { repo: a, name: b })@ == (AskView::OriginalBranch {
            repo: a@,
            name: b@,
        }),
        Ask::ModifiedTime(path)@ == AskView::ModifiedTime(path),
        Ask::ExtractPath(a)@ == AskView::ExtractPath(a@),
        Ask::ExtractBranch(a)@ == AskView::ExtractBranch(a@),
        Ask::RepoStorageDir(a)@ == AskView::RepoStorageDir(a@),
        Ask::LocalBranches@ == AskView::LocalBranches,
        Ask::PathExists(path)@ == AskView::PathExists(path),
        Ask::HeadBranch(path)@ == AskView::HeadBranch(path),
        Ask::RemoveDirectory(path)@ == AskView::RemoveDirectory(path),
        Ask::PruneWorktree(a)@ == AskView::PruneWorktree(a@),
        (Ask::RemoveOrigin { repo: a, branch: b })@ == (AskView::RemoveOrigin {
            repo: a@,
            branch: b@,
        }),
        Ask::DeleteBranch(a)@ == AskView::DeleteBranch(a@),
        (Ask::UnmarkBranch { repo: a, branch: b })@ == (AskView::UnmarkBranch {
            repo: a@,
            branch: b@,
        }),
        (Ask::RemoveMapping { repo: a, branch: b })@ == (AskView::RemoveMapping {
            repo: a@,
            branch: b@,
        }),
{
}

/// A request to choose is viewed with its prompt and every option, each at its place; and
/// so is the menu that it comes from.
pub proof fn choices_keep_their_options(prompt: String, options: Vec<String>)
    ensures
        (Ask::Select { prompt, options })@ matches Request::Select { prompt: p, options: o } && {
            &&& p == prompt@
            &&& o.len() == options@.len()
            &&& forall|i: int| 0 <= i < options@.len() ==> #[trigger] o[i] == options@[i]@
        },
        ({
            let menu = (Menu { prompt, options })@;
            &&& menu.prompt == prompt@
            &&& menu.options.len() == options@.len()
            &&& forall|i: int|
                0 <= i < options@.len() ==> #[trigger] menu.options[i] == options@[i]@
        }),
{
}

/// A reply is viewed as the same reply, with what it tells.
pub proof fn replies_keep_their_parts<E>(
    e: E,
    done: Result<(), E>,
    a: String,
    path: PathBuf,
    read: Result<PathBuf, E>,
    time: Option<i128>,
    yes: bool,
)
    ensures
        Answer::<E>::StorageOpened(done)@ == AnswerView::<E>::StorageOpened(done),
        Answer::<E>::RepoOpened(Ok(a))@ == AnswerView::<E>::RepoOpened(Ok(a@)),
        Answer::<E>::RepoOpened(Err(e))@ == AnswerView::<E>::RepoOpened(Err(e)),
        Answer::<E>::CurrentRepo(Ok(Some(a)))@ == AnswerView::<E>::CurrentRepo(Ok(Some(a@))),
        Answer::<E>::CurrentRepo(Ok(None))@ == AnswerView::<E>::CurrentRepo(Ok(None)),
        Answer::<E>::CurrentRepo(Err(e))@ == AnswerView::<E>::CurrentRepo(Err(e)),
        Answer::<E>::RepoWorktrees(Err(e))@ == AnswerView::<E>::RepoWorktrees(Err(e)),
        Answer::<E>::AllWorktrees(Err(e))@ == AnswerView::<E>::AllWorktrees(Err(e)),
        (Answer::<E>::Located { path, exists: yes })@ == (AnswerView::<E>::Located {
            path,
            exists: yes,
        }),
        Answer::<E>::OriginalBranch(Ok(Some(a)))@ == AnswerView::<E>::OriginalBranch(Ok(Some(a@))),
        Answer::<E>::OriginalBranch(Ok(None))@ == AnswerView::<E>::OriginalBranch(Ok(None)),
        Answer::<E>::OriginalBranch(Err(e))@ == AnswerView::<E>::OriginalBranch(Err(e)),
        Answer::<E>::Modified(time)@ == AnswerView::<E>::Modified(time),
        Answer::<E>::Selected(Ok(a))@ == AnswerView::<E>::Selected(Ok(a@)),
        Answer::<E>::Selected(Err(e))@ == AnswerView::<E>::Selected(Err(e)),
        Answer::<E>::ExtractedPath(read)@ == AnswerView::<E>::ExtractedPath(read),
        Answer::<E>::ExtractedBranch(Ok(a))@ == AnswerView::<E>::ExtractedBranch(Ok(a@)),
        Answer::<E>::ExtractedBranch(Err(e))@ == AnswerView::<E>::ExtractedBranch(Err(e)),
        Answer::<E>::StorageDir(path)@ == AnswerView::<E>::StorageDir(path),
        Answer::<E>::LocalBranches(Ok(None))@ == AnswerView::<E>::LocalBranches(Ok(None)),
        Answer::<E>::LocalBranches(Err(e))@ == AnswerView::<E>::LocalBranches(Err(e)),
        Answer::<E>::PathExists(yes)@ == AnswerView::<E>::PathExists(yes),
        Answer::<E>::HeadBranch(Ok(a))@ == AnswerView::<E>::HeadBranch(Ok(a@)),
        Answer::<E>::HeadBranch(Err(a))@ == AnswerView::<E>::HeadBranch(Err(a@)),
        Answer::<E>::DirectoryRemoved(done)@ == AnswerView::<E>::DirectoryRemoved(done),
        Answer::<E>::WorktreePruned(done)@ == AnswerView::<E>::WorktreePruned(done),
        Answer::<E>::OriginRemoved(Err(a))@ == AnswerView::<E>::OriginRemoved(Err(a@)),
        Answer::<E>::BranchDeleted(Err(a))@ == AnswerView::<E>::BranchDeleted(Err(a@)),
        Answer::<E>::BranchUnmarked@ == AnswerView::<E>::BranchUnmarked,
        Answer::<E>::MappingRemoved(Err(a))@ == AnswerView::<E>::MappingRemoved(Err(a@)),
{
}

/// A reply that something was removed is viewed as that.
pub proof fn successes_stay_successes<E>(done: Result<(), String>)
    requires
        done is Ok,
    ensures
        Answer::<E>::OriginRemoved(done)@ matches Reply::OriginRemoved(r) && r is Ok,
        Answer::<E>::BranchDeleted(done)@ matches Reply::BranchDeleted(r) && r is Ok,
        Answer::<E>::MappingRemoved(done)@ matches Reply::MappingRemoved(r) && r is Ok,
{
}

/// A reply that lists something is viewed with all that it lists, each at its place.
pub proof fn replies_keep_their_lists<E>(names: Vec<String>, all: Vec<(String, Vec<String>)>)
    ensures
        Answer::<E>::RepoWorktrees(Ok(names))@ matches Reply::RepoWorktrees(Ok(listed)) && {
            &&& listed.len() == names@.len()
            &&& forall|i: int| 0 <= i < names@.len() ==> #[trigger] listed[i] == names@[i]@
        },
        Answer::<E>::LocalBranches(Ok(Some(names)))@ matches Reply::LocalBranches(
            Ok(Some(listed)),
        ) && {
            &&& listed.len() == names@.len()
            &&& forall|i: int| 0 <= i < names@.len() ==> #[trigger] listed[i] == names@[i]@
        },
        Answer::<E>::AllWorktrees(Ok(all))@ matches Reply::AllWorktrees(Ok(listed)) && {
            &&& listed.len() == all@.len()
            &&& forall|i: int|
                0 <= i < all@.len() ==> {
                    &&& (#[trigger] listed[i]).0 == all@[i].0@
                    &&& listed[i].1.len() == all@[i].1@.len()
                }
            &&& forall|i: int, j: int|
                0 <= i < all@.len() && 0 <= j < all@[i].1@.len() ==> #[trigger] listed[i].1[j]
                    == all@[i].1@[j]@
        },
{
}

/// A line is viewed as a line of the same kind with the same text.
pub proof fn lines_keep_their_text(text: String)
    ensures
        Line::Stdout(text)@ == Line::Stdout(text@),
        Line::Stderr(text)@ == Line::Stderr(text@),
{
}

/// An error is viewed as the same error about the same thing.
pub proof fn errors_keep_their_parts<E>(e: E, a: String, path: PathBuf)
    ensures
        CommandError::<String, E>::Failed(e)@ == CommandError::<Seq<char>, E>::Failed(e),
        CommandError::<String, E>::NoCurrentRepo@ == CommandError::<Seq<char>, E>::NoCurrentRepo,
        CommandError::<String, E>::NoWorktrees@ == CommandError::<Seq<char>, E>::NoWorktrees,
        CommandError::<String, E>::NoMatch(a)@ == CommandError::<Seq<char>, E>::NoMatch(a@),
        CommandError::<String, E>::Ambiguous@ == CommandError::<Seq<char>, E>::Ambiguous,
        CommandError::<String, E>::PathMissing(path)@ == CommandError::<
            Seq<char>,
            E,
        >::PathMissing(path),
        CommandError::<String, E>::InvalidPath(a)@ == CommandError::<Seq<char>, E>::InvalidPath(a@),
        CommandError::<String, E>::NoWorktreeForBranch(a)@ == CommandError::<
            Seq<char>,
            E,
        >::NoWorktreeForBranch(a@),
        CommandError::<String, E>::UnknownBranch(a)@ == CommandError::<
            Seq<char>,
            E,
        >::UnknownBranch(a@),
        CommandError::<String, E>::DirectoryNotRemoved(e)@ == CommandError::<
            Seq<char>,
            E,
        >::DirectoryNotRemoved(e),
        CommandError::<String, E>::NotPruned(e)@ == CommandError::<Seq<char>, E>::NotPruned(e),
        CommandError::<String, E>::BranchNotDeleted(a)@ == CommandError::<
            Seq<char>,
            E,
        >::BranchNotDeleted(a@),
{
}

/// A step is viewed as one that goes on or ends just so, with every line at its place.
pub proof fn steps_keep_their_parts<S: View, E>(
    lines: Vec<Line<String>>,
    session: S,
    result: Outcome<E>,
)
    ensures
        protocol::step_view::<S, E>(Step::Continue { lines, session }) matches Step::Continue {
            lines: shown,
            session: next,
        } && {
            &&& next == session@
            &&& shown.len() == lines@.len()
            &&& forall|i: int| 0 <= i < lines@.len() ==> #[trigger] shown[i] == lines@[i]@
        },
        protocol::step_view::<S, E>(Step::Done { lines, result }) matches Step::Done {
            lines: shown,
            result: told,
        } && {
            &&& result is Ok <==> told is Ok
            &&& result matches Err(error) ==> told == Err::<(), _>(error@)
            &&& shown.len() == lines@.len()
            &&& forall|i: int| 0 <= i < lines@.len() ==> #[trigger] shown[i] == lines@[i]@
        },
{
}

/// What a command is after is viewed as it is, by the name that was given.
pub proof fn goals_keep_their_names(name: String, given: &str)
    ensures
        Goal::<String>::Complete@ == Goal::<Seq<char>>::Complete,
        Goal::<String>::Choose@ == Goal::<Seq<char>>::Choose,
        Goal::Named(name)@ == Goal::Named(name@),
        goal::target_view(Some(given)) == Some(given@),
        goal::target_view(None) == None::<Seq<char>>,
{
}

/// A worktree is viewed with its repository, its branch and its path, dated or not.
pub proof fn worktrees_keep_their_parts(
    repo: String,
    branch: String,
    path: PathBuf,
    modified: Option<i128>,
)
    ensures
        (Worktree { repo, branch, path })@ == (Worktree { repo: repo@, branch: branch@, path }),
        (Dated { worktree: Worktree { repo, branch, path }, modified })@ == (Dated {
            worktree: Worktree { repo: repo@, branch: branch@, path },
            modified,
        }),
        (Entry { repo, name: branch })@ == (Entry { repo: repo@, name: branch@ }),
        (Resolved { path, branch })@ == (Resolved { path, branch: branch@ }),
{
}

/// What a search comes to is viewed as that, with every worktree at its place.
pub proof fn lookups_keep_their_worktrees(path: PathBuf, matching: Vec<Worktree<String>>)
    ensures
        Lookup::<Vec<Worktree<String>>>::Found(path)@ == Lookup::<Seq<WorktreeView>>::Found(path),
        Lookup::<Vec<Worktree<String>>>::Missing@ == Lookup::<Seq<WorktreeView>>::Missing,
        Lookup::Ambiguous(matching)@ matches Lookup::Ambiguous(viewed) && {
            &&& viewed.len() == matching@.len()
            &&& forall|i: int| 0 <= i < matching@.len() ==> #[trigger] viewed[i] == matching@[i]@
        },
{
}

/// A listing is viewed as it stands, with all that it has found and has still to do.
pub proof fn listings_keep_their_parts(
    repo: String,
    at: Entry<String>,
    path: PathBuf,
    rest: VecDeque<Entry<String>>,
    found: VecDeque<Worktree<String>>,
)
    ensures
        Listing::CurrentRepo@ == ListingView::CurrentRepo,
        Listing::RepoWorktrees(repo)@ == ListingView::RepoWorktrees(repo@),
        Listing::AllWorktrees@ == ListingView::AllWorktrees,
        (Listing::Locating { at, rest, found })@ matches ListingView::Locating {
            at: a,
            rest: r,
            found: f,
        } && {
            &&& a == at@
            &&& r.len() == rest@.len()
            &&& f.len() == found@.len()
            &&& forall|i: int| 0 <= i < rest@.len() ==> #[trigger] r[i] == rest@[i]@
            &&& forall|i: int| 0 <= i < found@.len() ==> #[trigger] f[i] == found@[i]@
        },
        (Listing::Naming { at, path, rest, found })@ matches ListingView::Naming {
            at: a,
            path: p,
            rest: r,
            found: f,
        } && {
            &&& a == at@
            &&& p == path
            &&& r.len() == rest@.len()
            &&& f.len() == found@.len()
            &&& forall|i: int| 0 <= i < rest@.len() ==> #[trigger] r[i] == rest@[i]@
            &&& forall|i: int| 0 <= i < found@.len() ==> #[trigger] f[i] == found@[i]@
        },
{
}

/// A listing that puts its worktrees in order is viewed with all of them.
pub proof fn datings_keep_their_parts(
    worktree: Worktree<String>,
    undated: VecDeque<Worktree<String>>,
    dated: Vec<Dated<String>>,
)
    ensures
        (Listing::Dating { worktree, undated, dated })@ matches ListingView::Dating {
            worktree: x,
            undated: u,
            dated: d,
        } && {
            &&& x == worktree@
            &&& u.len() == undated@.len()
            &&& d.len() == dated@.len()
            &&& forall|i: int| 0 <= i < undated@.len() ==> #[trigger] u[i] == undated@[i]@
            &&& forall|i: int| 0 <= i < dated@.len() ==> #[trigger] d[i] == dated@[i]@
        },
{
}

/// Where a listing stands is viewed as that, and what it came to with every worktree at
/// its place.
pub proof fn listings_keep_their_results<E>(
    listing: Listing,
    worktrees: Vec<Worktree<String>>,
    e: E,
)
    ensures
        listing::progress_view::<E>(Progress::Waiting(listing)) matches Progress::Waiting(viewed)
            && viewed == listing@,
        listing::progress_view::<E>(Progress::Finished(Ok(worktrees))) matches Progress::Finished(
            Ok(viewed),
        ) && {
            &&& viewed.len() == worktrees@.len()
            &&& forall|i: int| 0 <= i < worktrees@.len() ==> #[trigger] viewed[i] == worktrees@[i]@
        },
        listing::progress_view::<E>(Progress::Finished(Err(e))) matches Progress::Finished(
            Err(viewed),
        ) && viewed == e,
{
}

/// The resolving of a target is viewed as it stands.
pub proof fn resolvers_keep_their_parts(repo: String, target: String, name: String, path: PathBuf)
    ensures
        (Resolver::StorageDir { repo, target })@ == (ResolverView::StorageDir {
            repo: repo@,
            target: target@,
        }),
        (Resolver::BranchOfDirectory { repo, target, name })@ == (ResolverView::BranchOfDirectory {
            repo: repo@,
            target: target@,
            name: name@,
        }),
        (Resolver::LocateBranch { repo, target })@ == (ResolverView::LocateBranch {
            repo: repo@,
            target: target@,
        }),
        (Resolver::LocateName { repo, target })@ == (ResolverView::LocateName {
            repo: repo@,
            target: target@,
        }),
        (Resolver::BranchOfName { repo, target, path })@ == (ResolverView::BranchOfName {
            repo: repo@,
            target: target@,
            path,
        }),
        (Resolver::IsBranch { target, path })@ == (ResolverView::IsBranch {
            target: target@,
            path,
        }),
        (Resolver::BranchElsewhere { repo, target })@ == (ResolverView::BranchElsewhere {
            repo: repo@,
            target: target@,
        }),
        (Resolver::LocateOriginal { repo, target, original: name })@ == (
        ResolverView::LocateOriginal { repo: repo@, target: target@, original: name@ }),
{
}

/// Where the resolving of a target stands is viewed as that, and so is what it came to.
pub proof fn resolvers_keep_their_results<E>(
    resolver: Resolver<String>,
    resolved: Resolved<String>,
    error: CommandError<String, E>,
)
    ensures
        resolve::progress_view::<E>(Progress::Waiting(resolver)) matches Progress::Waiting(viewed)
            && viewed == resolver@,
        resolve::progress_view::<E>(Progress::Finished(Ok(resolved))) matches Progress::Finished(
            Ok(viewed),
        ) && viewed == resolved@,
        resolve::progress_view::<E>(Progress::Finished(Err(error))) matches Progress::Finished(
            Err(viewed),
        ) && viewed == error@,
{
}

/// A removal is viewed as it stands: what it is about, how far it has come, and the
/// branch that it has made out.
pub proof fn removals_keep_their_parts(
    repo: String,
    path: PathBuf,
    branch: String,
    preserve_branch: bool,
    ticket: Ticket<String>,
    stage: Stage<String>,
)
    ensures
        (Ticket { repo, path, branch, preserve_branch })@ == (Ticket {
            repo: repo@,
            path,
            branch: branch@,
            preserve_branch,
        }),
        Stage::<String>::CheckPath@ == Stage::<Seq<char>>::CheckPath,
        Stage::<String>::ReadHead@ == Stage::<Seq<char>>::ReadHead,
        Stage::<String>::LookUpMapping@ == Stage::<Seq<char>>::LookUpMapping,
        Stage::RecheckPath(branch)@ == Stage::RecheckPath(branch@),
        Stage::RemoveDirectory(branch)@ == Stage::RemoveDirectory(branch@),
        Stage::Prune(branch)@ == Stage::Prune(branch@),
        Stage::RemoveOrigin(branch)@ == Stage::RemoveOrigin(branch@),
        Stage::DeleteBranch(branch)@ == Stage::DeleteBranch(branch@),
        Stage::Unmark(branch)@ == Stage::Unmark(branch@),
        Stage::RemoveMapping(branch)@ == Stage::RemoveMapping(branch@),
        (Removal { ticket, stage })@ == (Removal { ticket: ticket@, stage: stage@ }),
{
}

/// A jump is viewed as it stands.
pub proof fn jumps_keep_their_parts(
    goal: Goal<String>,
    current_repo_only: bool,
    listing: Listing,
    menu: Menu<String, Vec<String>>,
    selection: String,
)
    ensures
        (Jump::OpenStorage { goal, current_repo_only })@ == (JumpView::OpenStorage {
            goal: goal@,
            current_repo_only,
        }),
        (Jump::List { goal, listing })@ == (JumpView::List { goal: goal@, listing: listing@ }),
        Jump::Select(menu)@ == JumpView::Select(menu@),
        Jump::Extract(selection)@ == JumpView::Extract(selection@),
{
}

/// A remove command is viewed as it stands.
pub proof fn remove_commands_keep_their_parts(
    goal: Goal<String>,
    preserve_branch: bool,
    current_repo_only: bool,
    text: String,
    repo: String,
    listing: Listing,
    path: PathBuf,
)
    ensures
        (Remove::OpenStorage { goal, preserve_branch, current_repo_only })@ == (
        RemoveView::OpenStorage { goal: goal@, preserve_branch, current_repo_only }),
        Remove::Complete(listing)@ == RemoveView::Complete(listing@),
        (Remove::OpenRepo { target: Some(text), preserve_branch, current_repo_only })@ == (
        RemoveView::OpenRepo { target: Some(text@), preserve_branch, current_repo_only }),
        (Remove::OpenRepo { target: None, preserve_branch, current_repo_only })@ == (
        RemoveView::OpenRepo { target: None, preserve_branch, current_repo_only }),
        (Remove::List { repo, preserve_branch, listing })@ == (RemoveView::List {
            repo: repo@,
            preserve_branch,
            listing: listing@,
        }),
        (Remove::ExtractPath { repo, preserve_branch, selection: text })@ == (
        RemoveView::ExtractPath { repo: repo@, preserve_branch, selection: text@ }),
        (Remove::ExtractBranch { repo, preserve_branch, path, selection: text })@ == (
        RemoveView::ExtractBranch { repo: repo@, preserve_branch, path, selection: text@ }),
{
}

/// A remove command that offers a choice, finds out what is meant, or removes, is viewed
/// with what it is doing that on.
pub proof fn remove_commands_keep_their_work(
    repo: String,
    preserve_branch: bool,
    menu: Menu<String, Vec<String>>,
    resolver: Resolver<String>,
    removal: Removal<String>,
)
    ensures
        (Remove::Select { repo, preserve_branch, menu })@ == (RemoveView::Select {
            repo: repo@,
            preserve_branch,
            menu: menu@,
        }),
        (Remove::Resolve { repo, preserve_branch, resolver })@ == (RemoveView::Resolve {
            repo: repo@,
            preserve_branch,
            resolver: resolver@,
        }),
        Remove::Remove(removal)@ == RemoveView::Remove(removal@),
{
}

} // verus!
