//! Collecting the worktrees that are there, in the order in which they are listed.
//!
//! A worktree is listed if the storage lists it and something is at its path. It
//! goes by the branch that the storage has on record for its directory name, or by
//! the directory name itself where there is no record.
use std::collections::VecDeque;
use std::path::PathBuf;
use vstd::prelude::*;

use crate::protocol::{Answer, AnswerView, Ask, AskView, Catalogue, CatalogueView, Progress, Reply, Request};
use crate::protocol;
use crate::recency::{Dated, DatedView};
use crate::recency;
use crate::text;
use crate::worktrees::{Worktree, WorktreeView};

verus! {

/// A worktree as the storage lists it: by its repository and its directory name.
pub struct Entry<T> {
    pub repo: T,
    pub name: T,
}

/// The model of an entry.
pub type EntryView = Entry<Seq<char>>;

impl View for Entry<String> {
    type V = EntryView;

    open spec fn view(&self) -> EntryView {
        Entry { repo: self.repo@, name: self.name@ }
    }
}

/// The collecting, between two requests.
pub enum Listing {
    /// Which repository is the current one?
    CurrentRepo,
    /// What does the storage list for this repository?
    RepoWorktrees(String),
    /// What does the storage list at all?
    AllWorktrees,
    /// Where is `at`, and is something there?
    Locating {
        at: Entry<String>,
        rest: VecDeque<Entry<String>>,
        found: VecDeque<Worktree<String>>,
    },
    /// What is the branch of `at`, which is at `path`?
    Naming {
        at: Entry<String>,
        path: PathBuf,
        rest: VecDeque<Entry<String>>,
        found: VecDeque<Worktree<String>>,
    },
    /// When was `worktree` modified?
    Dating {
        worktree: Worktree<String>,
        undated: VecDeque<Worktree<String>>,
        dated: Vec<Dated<String>>,
    },
}

/// The model of the collecting.
pub enum ListingView {
    CurrentRepo,
    RepoWorktrees(Seq<char>),
    AllWorktrees,
    Locating { at: EntryView, rest: Seq<EntryView>, found: Seq<WorktreeView> },
    Naming { at: EntryView, path: PathBuf, rest: Seq<EntryView>, found: Seq<WorktreeView> },
    Dating { worktree: WorktreeView, undated: Seq<WorktreeView>, dated: Seq<DatedView> },
}

/// What a listing comes to.
pub type Listed<E> = Result<Vec<Worktree<String>>, E>;

/// The model of what a listing comes to.
pub type ListedView<E> = Result<Seq<WorktreeView>, E>;

impl View for Listing {
    type V = ListingView;

    open spec fn view(&self) -> ListingView {
        match *self {
            Listing::CurrentRepo => ListingView::CurrentRepo,
            Listing::RepoWorktrees(repo) => ListingView::RepoWorktrees(repo@),
            Listing::AllWorktrees => ListingView::AllWorktrees,
            Listing::Locating { at, rest, found } => ListingView::Locating {
                at: at@,
                rest: text::views(rest@),
                found: text::views(found@),
            },
            Listing::Naming { at, path, rest, found } => ListingView::Naming {
                at: at@,
                path,
                rest: text::views(rest@),
                found: text::views(found@),
            },
            Listing::Dating { worktree, undated, dated } => ListingView::Dating {
                worktree: worktree@,
                undated: text::views(undated@),
                dated: text::views(dated@),
            },
        }
    }
}

/// The model of what a listing came to.
pub open spec fn listed_view<E>(result: Listed<E>) -> ListedView<E> {
    match result {
        Ok(worktrees) => Ok(text::views(worktrees@)),
        Err(e) => Err(e),
    }
}

/// The model of where a listing stands.
pub open spec fn progress_view<E>(progress: Progress<Listing, Listed<E>>) -> Progress<
    ListingView,
    ListedView<E>,
> {
    match progress {
        Progress::Waiting(listing) => Progress::Waiting(listing@),
        Progress::Finished(result) => Progress::Finished(listed_view(result)),
    }
}

/// What the storage lists for one repository.
pub open spec fn entries_of(repo: Seq<char>, names: Seq<Seq<char>>) -> Seq<EntryView> {
    names.map_values(|name: Seq<char>| Entry { repo, name })
}

/// What the storage lists for all repositories, one after the other.
pub open spec fn all_entries(all: CatalogueView) -> Seq<EntryView>
    decreases all.len(),
{
    if all.len() == 0 {
        Seq::empty()
    } else {
        all_entries(all.drop_last()) + entries_of(all.last().0, all.last().1)
    }
}

/// The worktree that an entry stands for, by the branch on record for it.
pub open spec fn named(at: EntryView, path: PathBuf, original: Option<Seq<char>>) -> WorktreeView {
    Worktree {
        repo: at.repo,
        branch: match original {
            Some(branch) => branch,
            None => at.name,
        },
        path,
    }
}

/// Dated worktrees, as they are listed.
pub open spec fn in_order(dated: Seq<DatedView>) -> Seq<WorktreeView> {
    recency::by_recency(dated).map_values(|d: DatedView| d.worktree)
}

/// With these worktrees still to be dated, the next one is asked about; with none
/// left, the listing is there.
pub open spec fn date_next<E>(undated: Seq<WorktreeView>, dated: Seq<DatedView>) -> Progress<
    ListingView,
    ListedView<E>,
> {
    if undated.len() == 0 {
        Progress::Finished(Ok(in_order(dated)))
    } else {
        Progress::Waiting(
            ListingView::Dating { worktree: undated[0], undated: undated.drop_first(), dated },
        )
    }
}

/// With these entries still to be looked at, the next one is asked about; with none
/// left, what was found is dated.
pub open spec fn locate_next<E>(rest: Seq<EntryView>, found: Seq<WorktreeView>) -> Progress<
    ListingView,
    ListedView<E>,
> {
    if rest.len() == 0 {
        date_next(found, Seq::empty())
    } else {
        Progress::Waiting(ListingView::Locating { at: rest[0], rest: rest.drop_first(), found })
    }
}

impl ListingView {
    /// How a listing starts.
    pub open spec fn start(current_repo_only: bool) -> ListingView {
        if current_repo_only {
            ListingView::CurrentRepo
        } else {
            ListingView::AllWorktrees
        }
    }

    /// What a listing asks for.
    pub open spec fn request(self) -> AskView {
        match self {
            ListingView::CurrentRepo => Request::CurrentRepoName,
            ListingView::RepoWorktrees(repo) => Request::ListRepoWorktrees(repo),
            ListingView::AllWorktrees => Request::ListAllWorktrees,
            ListingView::Locating { at, .. } => Request::LocateWorktree {
                repo: at.repo,
                name: at.name,
            },
            ListingView::Naming { at, .. } => Request::OriginalBranch {
                repo: at.repo,
                name: at.name,
            },
            ListingView::Dating { worktree, .. } => Request::ModifiedTime(worktree.path),
        }
    }

    /// Where a listing stands after a reply. One that does not answer what was asked
    /// changes nothing.
    pub open spec fn after<E>(self, reply: AnswerView<E>) -> Progress<ListingView, ListedView<E>> {
        match (self, reply) {
            (ListingView::CurrentRepo, Reply::CurrentRepo(r)) => match r {
                Ok(Some(repo)) => Progress::Waiting(ListingView::RepoWorktrees(repo)),
                Ok(None) => Progress::Finished(Ok(Seq::empty())),
                Err(e) => Progress::Finished(Err(e)),
            },
            (ListingView::RepoWorktrees(repo), Reply::RepoWorktrees(r)) => match r {
                Ok(names) => locate_next(entries_of(repo, names), Seq::empty()),
                Err(e) => Progress::Finished(Err(e)),
            },
            (ListingView::AllWorktrees, Reply::AllWorktrees(r)) => match r {
                Ok(all) => locate_next(all_entries(all), Seq::empty()),
                Err(e) => Progress::Finished(Err(e)),
            },
            (ListingView::Locating { at, rest, found }, Reply::Located { path, exists }) => {
                if exists {
                    Progress::Waiting(ListingView::Naming { at, path, rest, found })
                } else {
                    locate_next(rest, found)
                }
            },
            (ListingView::Naming { at, path, rest, found }, Reply::OriginalBranch(r)) => match r {
                Ok(original) => locate_next(rest, found.push(named(at, path, original))),
                Err(e) => Progress::Finished(Err(e)),
            },
            (ListingView::Dating { worktree, undated, dated }, Reply::Modified(modified)) => {
                date_next(undated, dated.push(Dated { worktree, modified }))
            },
            _ => Progress::Waiting(self),
        }
    }
}

/// Starts to collect the worktrees: those of the current repository, or all.
pub fn get_available_worktrees(current_repo_only: bool) -> (listing: Listing)
    ensures
        listing@ == ListingView::start(current_repo_only),
{
    if current_repo_only {
        Listing::CurrentRepo
    } else {
        Listing::AllWorktrees
    }
}

/// The next worktree to be dated, or the listing.
fn continue_dating<E>(
    undated: VecDeque<Worktree<String>>,
    dated: Vec<Dated<String>>,
) -> (progress: Progress<Listing, Listed<E>>)
    ensures
        progress_view(progress) == date_next::<E>(text::views(undated@), text::views(dated@)),
{
    let ghost before = text::views(undated@);
    let mut undated = undated;
    match undated.pop_front() {
        Some(worktree) => {
            assert(text::views(undated@) =~= before.drop_first());
            Progress::Waiting(Listing::Dating { worktree, undated, dated })
        },
        None => Progress::Finished(Ok(recency::sort_newest_first(&dated))),
    }
}

/// The next entry to be looked at, or the dating of what was found.
fn continue_locating<E>(
    rest: VecDeque<Entry<String>>,
    found: VecDeque<Worktree<String>>,
) -> (progress: Progress<Listing, Listed<E>>)
    ensures
        progress_view(progress) == locate_next::<E>(text::views(rest@), text::views(found@)),
{
    let ghost before = text::views(rest@);
    let mut rest = rest;
    match rest.pop_front() {
        Some(at) => {
            assert(text::views(rest@) =~= before.drop_first());
            Progress::Waiting(Listing::Locating { at, rest, found })
        },
        None => {
            let dated: Vec<Dated<String>> = Vec::new();
            assert(text::views(dated@) =~= Seq::<DatedView>::empty());
            continue_dating(found, dated)
        },
    }
}

/// Appends what the storage lists for one repository.
fn append_entries(entries: &mut VecDeque<Entry<String>>, repo: &String, names: &Vec<String>)
    ensures
        text::views(final(entries)@) == text::views(old(entries)@) + entries_of(
            repo@,
            text::views(names@),
        ),
{
    let ghost start = entries@;
    for i in 0..names.len()
        invariant
            entries@.len() == start.len() + i,
            forall|j: int| 0 <= j < start.len() ==> entries@[j] == start[j],
            forall|j: int|
                0 <= j < i ==> (#[trigger] entries@[start.len() + j])@ == (Entry {
                    repo: repo@,
                    name: names@[j]@,
                }),
    {
        entries.push_back(Entry { repo: repo.clone(), name: names[i].clone() });
    }
    proof {
        let right = text::views(start) + entries_of(repo@, text::views(names@));
        assert forall|k: int| 0 <= k < entries@.len() implies text::views(entries@)[k]
            == right[k] by {
            if k >= start.len() {
                assert(entries@[start.len() + (k - start.len())]@ == right[k]);
            }
        }
        assert(text::views(entries@) =~= right);
    }
}

/// What the storage lists for one repository.
fn repo_entries(repo: &String, names: &Vec<String>) -> (entries: VecDeque<Entry<String>>)
    ensures
        text::views(entries@) == entries_of(repo@, text::views(names@)),
{
    let mut entries: VecDeque<Entry<String>> = VecDeque::new();
    append_entries(&mut entries, repo, names);
    assert(text::views(entries@) =~= entries_of(repo@, text::views(names@)));
    entries
}

/// What the storage lists for all repositories.
fn catalogue_entries(all: &Catalogue) -> (entries: VecDeque<Entry<String>>)
    ensures
        text::views(entries@) == all_entries(protocol::catalogue_view(all@)),
{
    let ghost model = protocol::catalogue_view(all@);
    let mut entries: VecDeque<Entry<String>> = VecDeque::new();
    assert(text::views(entries@) =~= all_entries(model.take(0)));
    for i in 0..all.len()
        invariant
            model == protocol::catalogue_view(all@),
            text::views(entries@) == all_entries(model.take(i as int)),
    {
        append_entries(&mut entries, &all[i].0, &all[i].1);
        assert(model.take(i + 1).drop_last() =~= model.take(i as int));
        assert(model.take(i + 1).last() == model[i as int]);
    }
    assert(model.take(model.len() as int) =~= model);
    entries
}

impl Listing {
    /// What the listing asks for.
    pub fn request(&self) -> (ask: Ask)
        ensures
            ask@ == self@.request(),
    {
        match self {
            Listing::CurrentRepo => Request::CurrentRepoName,
            Listing::RepoWorktrees(repo) => Request::ListRepoWorktrees(repo.clone()),
            Listing::AllWorktrees => Request::ListAllWorktrees,
            Listing::Locating { at, .. } => Request::LocateWorktree {
                repo: at.repo.clone(),
                name: at.name.clone(),
            },
            Listing::Naming { at, .. } => Request::OriginalBranch {
                repo: at.repo.clone(),
                name: at.name.clone(),
            },
            Listing::Dating { worktree, .. } => Request::ModifiedTime(worktree.path.clone()),
        }
    }

    /// Takes a reply, and goes on or comes to the result.
    pub fn resume<E>(self, reply: Answer<E>) -> (progress: Progress<Listing, Listed<E>>)
        ensures
            progress_view(progress) == self@.after(reply@),
    {
        let none: VecDeque<Worktree<String>> = VecDeque::new();
        assert(text::views(none@) =~= Seq::<WorktreeView>::empty());
        match (self, reply) {
            (Listing::CurrentRepo, Reply::CurrentRepo(r)) => match r {
                Ok(Some(repo)) => Progress::Waiting(Listing::RepoWorktrees(repo)),
                Ok(None) => {
                    let worktrees: Vec<Worktree<String>> = Vec::new();
                    assert(text::views(worktrees@) =~= Seq::<WorktreeView>::empty());
                    Progress::Finished(Ok(worktrees))
                },
                Err(e) => Progress::Finished(Err(e)),
            },
            (Listing::RepoWorktrees(repo), Reply::RepoWorktrees(r)) => match r {
                Ok(names) => continue_locating(repo_entries(&repo, &names), none),
                Err(e) => Progress::Finished(Err(e)),
            },
            (Listing::AllWorktrees, Reply::AllWorktrees(r)) => match r {
                Ok(all) => continue_locating(catalogue_entries(&all), none),
                Err(e) => Progress::Finished(Err(e)),
            },
            (Listing::Locating { at, rest, found }, Reply::Located { path, exists }) => {
                if exists {
                    Progress::Waiting(Listing::Naming { at, path, rest, found })
                } else {
                    continue_locating(rest, found)
                }
            },
            (Listing::Naming { at, path, rest, found }, Reply::OriginalBranch(r)) => match r {
                Ok(original) => {
                    let ghost before = text::views(found@);
                    let mut found = found;
                    let branch: String = match original {
                        Some(branch) => branch,
                        None => at.name,
                    };
                    let worktree = Worktree { repo: at.repo, branch, path };
                    let ghost added = worktree@;
                    found.push_back(worktree);
                    assert(text::views(found@) =~= before.push(added));
                    continue_locating(rest, found)
                },
                Err(e) => Progress::Finished(Err(e)),
            },
            (Listing::Dating { worktree, undated, dated }, Reply::Modified(modified)) => {
                let ghost before = text::views(dated@);
                let mut dated = dated;
                let item = Dated { worktree, modified };
                let ghost added = item@;
                dated.push(item);
                assert(text::views(dated@) =~= before.push(added));
                continue_dating(undated, dated)
            },
            (listing, _) => Progress::Waiting(listing),
        }
    }
}

} // verus!
