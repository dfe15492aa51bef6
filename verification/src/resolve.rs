//! Finding out which worktree and which branch the target of a removal means.
//!
//! A target is an absolute path, a branch name, or the directory name of a worktree.
//! A directory name is a branch name in which the characters that a directory name
//! may not hold were replaced, so only the storage can tell the branch behind it.
use std::path::PathBuf;
use vstd::prelude::*;

use crate::paths;
use crate::protocol::{Answer, AnswerView, Ask, AskView, CommandError, Progress, Reply, Request};
use crate::text;

verus! {

/// The worktree that a target means: where it is, and its branch.
#[derive(Debug, PartialEq, Eq)]
pub struct Resolved<T> {
    pub path: PathBuf,
    pub branch: T,
}

impl View for Resolved<String> {
    type V = Resolved<Seq<char>>;

    open spec fn view(&self) -> Resolved<Seq<char>> {
        Resolved { path: self.path, branch: self.branch@ }
    }
}

/// What resolving a target comes to.
pub type Resolution<E> = Result<Resolved<String>, CommandError<String, E>>;

/// The model of what resolving a target comes to.
pub type ResolutionView<E> = Result<Resolved<Seq<char>>, CommandError<Seq<char>, E>>;

/// The resolving of a target, between two requests.
pub enum Resolver<T> {
    /// The target is an absolute path. Where does the storage keep worktrees?
    StorageDir { repo: T, target: T },
    /// It leads to the directory `name` in the storage. Whose is that?
    BranchOfDirectory { repo: T, target: T, name: T },
    /// The target can only be a branch name. Is there a worktree for it?
    LocateBranch { repo: T, target: T },
    /// The target may be a branch name or a directory name. Is there a worktree?
    LocateName { repo: T, target: T },
    /// There is one, at `path`. Is the target the directory name of some branch?
    BranchOfName { repo: T, target: T, path: PathBuf },
    /// It is on record for none. Is it the name of a branch itself?
    IsBranch { target: T, path: PathBuf },
    /// There is none. Is the target the directory name of some branch all the same?
    BranchElsewhere { repo: T, target: T },
    /// It is, of `original`. Is there a worktree for that?
    LocateOriginal { repo: T, target: T, original: T },
}

/// The model of the resolving.
pub type ResolverView = Resolver<Seq<char>>;

impl View for Resolver<String> {
    type V = ResolverView;

    open spec fn view(&self) -> ResolverView {
        match *self {
            Resolver::StorageDir { repo, target } => Resolver::StorageDir {
                repo: repo@,
                target: target@,
            },
            Resolver::BranchOfDirectory { repo, target, name } => Resolver::BranchOfDirectory {
                repo: repo@,
                target: target@,
                name: name@,
            },
            Resolver::LocateBranch { repo, target } => Resolver::LocateBranch {
                repo: repo@,
                target: target@,
            },
            Resolver::LocateName { repo, target } => Resolver::LocateName {
                repo: repo@,
                target: target@,
            },
            Resolver::BranchOfName { repo, target, path } => Resolver::BranchOfName {
                repo: repo@,
                target: target@,
                path,
            },
            Resolver::IsBranch { target, path } => Resolver::IsBranch { target: target@, path },
            Resolver::BranchElsewhere { repo, target } => Resolver::BranchElsewhere {
                repo: repo@,
                target: target@,
            },
            Resolver::LocateOriginal { repo, target, original } => Resolver::LocateOriginal {
                repo: repo@,
                target: target@,
                original: original@,
            },
        }
    }
}

/// The model of what resolving came to.
pub open spec fn resolution_view<E>(result: Resolution<E>) -> ResolutionView<E> {
    match result {
        Ok(resolved) => Ok(resolved@),
        Err(error) => Err(error@),
    }
}

/// The model of where the resolving stands.
pub open spec fn progress_view<E>(progress: Progress<Resolver<String>, Resolution<E>>) -> Progress<
    ResolverView,
    ResolutionView<E>,
> {
    match progress {
        Progress::Waiting(resolver) => Progress::Waiting(resolver@),
        Progress::Finished(result) => Progress::Finished(resolution_view(result)),
    }
}

/// The directory name of the worktree that an absolute path leads to, given where
/// the storage keeps worktrees: the last component of what is below that.
pub open spec fn directory_below(target: Seq<char>, root: PathBuf) -> Option<Seq<char>> {
    match paths::path_below(paths::path_from_text(target), root) {
        Some(relative) => paths::path_file_name(relative),
        None => None,
    }
}

impl Resolver<Seq<char>> {
    /// How the resolving of a target starts.
    pub open spec fn start(target: Seq<char>, repo: Seq<char>) -> ResolverView {
        if paths::path_is_absolute(paths::path_from_text(target)) {
            Resolver::StorageDir { repo, target }
        } else if text::has_special(target) {
            Resolver::LocateBranch { repo, target }
        } else {
            Resolver::LocateName { repo, target }
        }
    }

    /// What the resolving asks for.
    pub open spec fn request(self) -> AskView {
        match self {
            Resolver::StorageDir { repo, .. } => Request::RepoStorageDir(repo),
            Resolver::BranchOfDirectory { repo, name, .. } => Request::OriginalBranch {
                repo,
                name,
            },
            Resolver::LocateBranch { repo, target } => Request::LocateWorktree {
                repo,
                name: target,
            },
            Resolver::LocateName { repo, target } => Request::LocateWorktree {
                repo,
                name: target,
            },
            Resolver::BranchOfName { repo, target, .. } => Request::OriginalBranch {
                repo,
                name: target,
            },
            Resolver::IsBranch { .. } => Request::LocalBranches,
            Resolver::BranchElsewhere { repo, target } => Request::OriginalBranch {
                repo,
                name: target,
            },
            Resolver::LocateOriginal { repo, original, .. } => Request::LocateWorktree {
                repo,
                name: original,
            },
        }
    }

    /// Where the resolving stands after a reply. One that does not answer what was
    /// asked changes nothing.
    pub open spec fn after<E>(self, reply: AnswerView<E>) -> Progress<
        ResolverView,
        ResolutionView<E>,
    > {
        match (self, reply) {
            (Resolver::StorageDir { repo, target }, Reply::StorageDir(root)) => {
                match directory_below(target, root) {
                    Some(name) => Progress::Waiting(
                        Resolver::BranchOfDirectory { repo, target, name },
                    ),
                    None => Progress::Finished(Err(CommandError::InvalidPath(target))),
                }
            },
            (Resolver::BranchOfDirectory { target, name, .. }, Reply::OriginalBranch(r)) => {
                let path = paths::path_from_text(target);
                match r {
                    Ok(Some(branch)) => Progress::Finished(Ok(Resolved { path, branch })),
                    Ok(None) => Progress::Finished(Ok(Resolved { path, branch: name })),
                    Err(e) => Progress::Finished(Err(CommandError::Failed(e))),
                }
            },
            (Resolver::LocateBranch { target, .. }, Reply::Located { path, exists }) => {
                if exists {
                    Progress::Finished(Ok(Resolved { path, branch: target }))
                } else {
                    Progress::Finished(Err(CommandError::NoWorktreeForBranch(target)))
                }
            },
            (Resolver::LocateName { repo, target }, Reply::Located { path, exists }) => {
                if exists {
                    Progress::Waiting(Resolver::BranchOfName { repo, target, path })
                } else {
                    Progress::Waiting(Resolver::BranchElsewhere { repo, target })
                }
            },
            (Resolver::BranchOfName { target, path, .. }, Reply::OriginalBranch(r)) => match r {
                Ok(Some(branch)) => Progress::Finished(Ok(Resolved { path, branch })),
                Ok(None) => Progress::Waiting(Resolver::IsBranch { target, path }),
                Err(e) => Progress::Finished(Err(CommandError::Failed(e))),
            },
            (Resolver::IsBranch { target, path }, Reply::LocalBranches(r)) => match r {
                Ok(Some(branches)) if branches.contains(target) => Progress::Finished(
                    Ok(Resolved { path, branch: target }),
                ),
                Ok(_) => Progress::Finished(Err(CommandError::UnknownBranch(target))),
                Err(e) => Progress::Finished(Err(CommandError::Failed(e))),
            },
            (Resolver::BranchElsewhere { repo, target }, Reply::OriginalBranch(r)) => match r {
                Ok(Some(original)) => Progress::Waiting(
                    Resolver::LocateOriginal { repo, target, original },
                ),
                Ok(None) => Progress::Finished(Err(CommandError::NoMatch(target))),
                Err(e) => Progress::Finished(Err(CommandError::Failed(e))),
            },
            (Resolver::LocateOriginal { target, original, .. }, Reply::Located { path, exists }) => {
                if exists {
                    Progress::Finished(Ok(Resolved { path, branch: original }))
                } else {
                    Progress::Finished(Err(CommandError::NoMatch(target)))
                }
            },
            _ => Progress::Waiting(self),
        }
    }
}

/// Starts to find out what the target of a removal means in a repository.
pub fn resolve_target(target: &str, repo_name: &str) -> (resolver: Resolver<String>)
    ensures
        resolver@ == Resolver::start(target@, repo_name@),
{
    let repo: String = repo_name.to_string();
    if paths::is_absolute(&paths::from_text(target)) {
        Resolver::StorageDir { repo, target: target.to_string() }
    } else if text::contains_special_chars(target) {
        Resolver::LocateBranch { repo, target: target.to_string() }
    } else {
        Resolver::LocateName { repo, target: target.to_string() }
    }
}

/// The directory name of the worktree that an absolute path leads to.
fn directory_in(target: &String, root: &PathBuf) -> (name: Option<String>)
    ensures
        name is Some <==> directory_below(target@, *root) is Some,
        name matches Some(n) ==> directory_below(target@, *root) == Some(n@),
{
    match paths::below(&paths::from_text(target.as_str()), root) {
        Some(relative) => paths::file_name(&relative),
        None => None,
    }
}

impl Resolver<String> {
    /// What the resolving asks for.
    pub fn request(&self) -> (ask: Ask)
        ensures
            ask@ == self@.request(),
    {
        match self {
            Resolver::StorageDir { repo, .. } => Request::RepoStorageDir(repo.clone()),
            Resolver::BranchOfDirectory { repo, name, .. } => Request::OriginalBranch {
                repo: repo.clone(),
                name: name.clone(),
            },
            Resolver::LocateBranch { repo, target } => Request::LocateWorktree {
                repo: repo.clone(),
                name: target.clone(),
            },
            Resolver::LocateName { repo, target } => Request::LocateWorktree {
                repo: repo.clone(),
                name: target.clone(),
            },
            Resolver::BranchOfName { repo, target, .. } => Request::OriginalBranch {
                repo: repo.clone(),
                name: target.clone(),
            },
            Resolver::IsBranch { .. } => Request::LocalBranches,
            Resolver::BranchElsewhere { repo, target } => Request::OriginalBranch {
                repo: repo.clone(),
                name: target.clone(),
            },
            Resolver::LocateOriginal { repo, original, .. } => Request::LocateWorktree {
                repo: repo.clone(),
                name: original.clone(),
            },
        }
    }

    /// Takes a reply, and goes on or comes to the result.
    pub fn resume<E>(self, reply: Answer<E>) -> (progress: Progress<
        Resolver<String>,
        Resolution<E>,
    >)
        ensures
            progress_view(progress) == self@.after(reply@),
    {
        match (self, reply) {
            (Resolver::StorageDir { repo, target }, Reply::StorageDir(root)) => {
                match directory_in(&target, &root) {
                    Some(name) => Progress::Waiting(
                        Resolver::BranchOfDirectory { repo, target, name },
                    ),
                    None => Progress::Finished(Err(CommandError::InvalidPath(target))),
                }
            },
            (Resolver::BranchOfDirectory { target, name, .. }, Reply::OriginalBranch(r)) => {
                let path = paths::from_text(target.as_str());
                match r {
                    Ok(Some(branch)) => Progress::Finished(Ok(Resolved { path, branch })),
                    Ok(None) => Progress::Finished(Ok(Resolved { path, branch: name })),
                    Err(e) => Progress::Finished(Err(CommandError::Failed(e))),
                }
            },
            (Resolver::LocateBranch { target, .. }, Reply::Located { path, exists }) => {
                if exists {
                    Progress::Finished(Ok(Resolved { path, branch: target }))
                } else {
                    Progress::Finished(Err(CommandError::NoWorktreeForBranch(target)))
                }
            },
            (Resolver::LocateName { repo, target }, Reply::Located { path, exists }) => {
                if exists {
                    Progress::Waiting(Resolver::BranchOfName { repo, target, path })
                } else {
                    Progress::Waiting(Resolver::BranchElsewhere { repo, target })
                }
            },
            (Resolver::BranchOfName { target, path, .. }, Reply::OriginalBranch(r)) => match r {
                Ok(Some(branch)) => Progress::Finished(Ok(Resolved { path, branch })),
                Ok(None) => Progress::Waiting(Resolver::IsBranch { target, path }),
                Err(e) => Progress::Finished(Err(CommandError::Failed(e))),
            },
            (Resolver::IsBranch { target, path }, Reply::LocalBranches(r)) => match r {
                Ok(Some(branches)) => {
                    let known: bool = text::any_is(&branches, &target);
                    assert(known == text::views(branches@).contains(target@)) by {
                        if known {
                            let i = choose|i: int|
                                0 <= i < branches@.len() && #[trigger] branches@[i]@ == target@;
                            assert(text::views(branches@)[i] == target@);
                        }
                    }
                    if known {
                        Progress::Finished(Ok(Resolved { path, branch: target }))
                    } else {
                        Progress::Finished(Err(CommandError::UnknownBranch(target)))
                    }
                },
                Ok(None) => Progress::Finished(Err(CommandError::UnknownBranch(target))),
                Err(e) => Progress::Finished(Err(CommandError::Failed(e))),
            },
            (Resolver::BranchElsewhere { repo, target }, Reply::OriginalBranch(r)) => match r {
                Ok(Some(original)) => Progress::Waiting(
                    Resolver::LocateOriginal { repo, target, original },
                ),
                Ok(None) => Progress::Finished(Err(CommandError::NoMatch(target))),
                Err(e) => Progress::Finished(Err(CommandError::Failed(e))),
            },
            (Resolver::LocateOriginal { target, original, .. }, Reply::Located { path, exists }) => {
                if exists {
                    Progress::Finished(Ok(Resolved { path, branch: original }))
                } else {
                    Progress::Finished(Err(CommandError::NoMatch(target)))
                }
            },
            (resolver, _) => Progress::Waiting(resolver),
        }
    }
}

} // verus!
