//! What holds of the commands as a whole.
//!
//! The first part is about commands in a [`World`]: run to their end, they come to
//! the outcomes that [`crate::world`] tells. The second is about commands in
//! surroundings that may change at any time: what holds whatever they are told.
use vstd::prelude::*;

use crate::goal;
use crate::goal::Goal;
use crate::jump;
use crate::jump::JumpView;
use crate::listing;
use crate::listing::{EntryView, ListedView, ListingView};
use crate::paths;
use crate::protocol::{
    AnswerView, AskView, CommandError, Line, LinesView, OutcomeView, Progress, Reply, Request, Step,
};
use crate::recency::DatedView;
use crate::removal;
use crate::removal::{Removal, RemovalView, Stage, Ticket};
use crate::remove;
use crate::remove::{RemoveStepView, RemoveView};
use crate::resolve::{ResolutionView, Resolver, ResolverView};
use crate::text;
use crate::world;
use crate::world::{Run, World};
use crate::worktrees;
use crate::worktrees::{Lookup, WorktreeView};

verus! {

// ---------------------------------------------------------------------------
// How far a command is from its end
// ---------------------------------------------------------------------------

/// How many phases of a listing are still to come.
pub open spec fn listing_phase(listing: ListingView) -> nat {
    match listing {
        ListingView::CurrentRepo => 3,
        ListingView::RepoWorktrees(_) => 2,
        ListingView::AllWorktrees => 2,
        ListingView::Locating { .. } => 1,
        ListingView::Naming { .. } => 1,
        ListingView::Dating { .. } => 0,
    }
}

/// How much is still to be asked in this phase of a listing, at most.
pub open spec fn listing_left(listing: ListingView) -> nat {
    match listing {
        ListingView::Locating { rest, .. } => 2 * rest.len() + 1,
        ListingView::Naming { rest, .. } => 2 * rest.len(),
        ListingView::Dating { undated, .. } => undated.len(),
        _ => 0,
    }
}

/// How many requests a resolving still has to make, at most.
pub open spec fn resolver_left(resolver: ResolverView) -> nat {
    match resolver {
        Resolver::LocateName { .. } => 3,
        Resolver::StorageDir { .. } => 2,
        Resolver::BranchOfName { .. } => 2,
        Resolver::BranchElsewhere { .. } => 2,
        _ => 1,
    }
}

/// How many requests a removal still has to make, at most.
pub open spec fn removal_left(removal: RemovalView) -> nat {
    match removal.stage {
        Stage::CheckPath => 10,
        Stage::ReadHead => 9,
        Stage::LookUpMapping => 8,
        Stage::RecheckPath(_) => 7,
        Stage::RemoveDirectory(_) => 6,
        Stage::Prune(_) => 5,
        Stage::RemoveOrigin(_) => 4,
        Stage::DeleteBranch(_) => 3,
        Stage::Unmark(_) => 2,
        Stage::RemoveMapping(_) => 1,
    }
}

/// How far a jump is from its end: three numbers, the first of which weighs most.
pub open spec fn jump_distance(jump: JumpView) -> (nat, nat, nat) {
    match jump {
        JumpView::OpenStorage { .. } => (3, 0, 0),
        JumpView::List { listing, .. } => (2, listing_phase(listing), listing_left(listing)),
        JumpView::Select(_) => (1, 0, 0),
        JumpView::Extract(_) => (0, 0, 0),
    }
}

/// How far a remove command is from its end.
pub open spec fn remove_distance(remove: RemoveView) -> (nat, nat, nat) {
    match remove {
        RemoveView::OpenStorage { .. } => (7, 0, 0),
        RemoveView::OpenRepo { .. } => (6, 0, 0),
        RemoveView::Complete(listing) => (5, listing_phase(listing), listing_left(listing)),
        RemoveView::List { listing, .. } => (5, listing_phase(listing), listing_left(listing)),
        RemoveView::Select { .. } => (4, 0, 0),
        RemoveView::ExtractPath { .. } => (3, 0, 0),
        RemoveView::ExtractBranch { .. } => (2, 0, 0),
        RemoveView::Resolve { resolver, .. } => (2, resolver_left(resolver), 0),
        RemoveView::Remove(removal) => (1, removal_left(removal), 0),
    }
}

/// Whether one distance is shorter than another.
pub open spec fn nearer(a: (nat, nat, nat), b: (nat, nat, nat)) -> bool {
    a.0 < b.0 || (a.0 == b.0 && (a.1 < b.1 || (a.1 == b.1 && a.2 < b.2)))
}

// ---------------------------------------------------------------------------
// Commands in a world
// ---------------------------------------------------------------------------

/// What a listing comes to when it is run to its end in a world.
pub open spec fn run_listing<E>(w: World<E>, listing: ListingView) -> ListedView<E>
    decreases listing_phase(listing), listing_left(listing),
{
    match listing.after(w.answer(listing.request())) {
        Progress::Waiting(next) => run_listing(w, next),
        Progress::Finished(result) => result,
    }
}

/// What a resolving comes to when it is run to its end in a world.
pub open spec fn run_resolver<E>(w: World<E>, resolver: ResolverView) -> ResolutionView<E>
    decreases resolver_left(resolver),
{
    match resolver.after(w.answer(resolver.request())) {
        Progress::Waiting(next) => run_resolver(w, next),
        Progress::Finished(result) => result,
    }
}

/// What a jump puts out and comes to when it is run to its end in a world.
pub open spec fn run_jump<E>(w: World<E>, jump: JumpView) -> (LinesView, OutcomeView<E>)
    decreases jump_distance(jump).0, jump_distance(jump).1, jump_distance(jump).2,
{
    match jump.after(w.answer(jump.request())) {
        Step::Continue { lines, session } => {
            let rest = run_jump(w, session);
            (lines + rest.0, rest.1)
        },
        Step::Done { lines, result } => (lines, result),
    }
}

/// What a remove command does when it is run to its end in a world.
pub open spec fn run_remove<E>(w: World<E>, remove: RemoveView) -> Run<E>
    decreases remove_distance(remove).0, remove_distance(remove).1, remove_distance(remove).2,
{
    let ask = remove.request();
    let change = if world::is_change(ask) {
        seq![ask]
    } else {
        Seq::empty()
    };
    match remove.after(w.answer(ask)) {
        Step::Continue { lines, session } => {
            let rest = run_remove(w, session);
            Run { changes: change + rest.changes, lines: lines + rest.lines, result: rest.result }
        },
        Step::Done { lines, result } => Run { changes: change, lines, result },
    }
}

/// What a listing comes to in a world, from where it stands.
spec fn finish_listing<E>(w: World<E>, progress: Progress<ListingView, ListedView<E>>) -> ListedView<
    E,
> {
    match progress {
        Progress::Waiting(listing) => run_listing(w, listing),
        Progress::Finished(result) => result,
    }
}

/// Filtering a sequence is filtering its head and its tail.
proof fn lemma_filter_head<A>(s: Seq<A>, pred: spec_fn(A) -> bool)
    requires
        s.len() > 0,
    ensures
        s.filter(pred) == if pred(s[0]) {
            seq![s[0]] + s.drop_first().filter(pred)
        } else {
            s.drop_first().filter(pred)
        },
{
    let head = seq![s[0]];
    assert(s =~= head + s.drop_first());
    Seq::filter_distributes_over_add(head, s.drop_first(), pred);
    assert(head.filter(pred) =~= if pred(s[0]) {
        head
    } else {
        Seq::empty()
    }) by {
        reveal(Seq::filter);
        assert(head.drop_last().filter(pred) =~= Seq::<A>::empty());
        assert(Seq::<A>::empty().push(s[0]) =~= head);
    }
    if !pred(s[0]) {
        assert(Seq::<A>::empty() + s.drop_first().filter(pred) =~= s.drop_first().filter(pred));
    }
}

/// The dating of worktrees gives each its time and then the order.
proof fn lemma_dating<E>(w: World<E>, undated: Seq<WorktreeView>, dated: Seq<DatedView>)
    ensures
        finish_listing(w, listing::date_next(undated, dated)) == Ok::<_, E>(
            listing::in_order(dated + undated.map_values(|x: WorktreeView| w.dated(x))),
        ),
    decreases undated.len(),
{
    let date = |x: WorktreeView| w.dated(x);
    if undated.len() == 0 {
        assert(dated + undated.map_values(date) =~= dated);
    } else {
        let rest = undated.drop_first();
        let more = dated.push(w.dated(undated[0]));
        lemma_dating(w, rest, more);
        assert(more + rest.map_values(date) =~= dated + undated.map_values(date));
    }
}

/// Looking at entries one by one finds those that are there, until a record cannot
/// be read.
proof fn lemma_locating<E>(w: World<E>, entries: Seq<EntryView>, found: Seq<WorktreeView>)
    ensures
        finish_listing(w, listing::locate_next(entries, found)) == {
            let present = w.present(entries);
            let unreadable = w.unreadable(present);
            if unreadable.len() > 0 {
                Err(w.record_of(unreadable[0])->Err_0)
            } else {
                Ok(
                    listing::in_order(
                        (found + present.map_values(|x: EntryView| w.worktree_of(x))).map_values(
                            |x: WorktreeView| w.dated(x),
                        ),
                    ),
                )
            }
        },
    decreases entries.len(),
{
    let here = |x: EntryView| w.is_present(x);
    let bad = |x: EntryView| w.record_of(x) is Err;
    let make = |x: EntryView| w.worktree_of(x);
    let date = |x: WorktreeView| w.dated(x);
    let present = w.present(entries);
    if entries.len() == 0 {
        assert(present =~= Seq::<EntryView>::empty()) by {
            reveal(Seq::filter);
        }
        assert(w.unreadable(present) =~= Seq::<EntryView>::empty()) by {
            reveal(Seq::filter);
        }
        assert(found + present.map_values(make) =~= found);
        lemma_dating(w, found, Seq::empty());
        assert(Seq::<DatedView>::empty() + found.map_values(date) =~= found.map_values(date));
    } else {
        let x = entries[0];
        let rest = entries.drop_first();
        let waiting = ListingView::Locating { at: x, rest, found };
        lemma_filter_head(entries, here);
        assert(finish_listing(w, listing::locate_next(entries, found)) == run_listing(w, waiting));
        if !w.is_present(x) {
            lemma_locating(w, rest, found);
            assert(present == w.present(rest));
        } else {
            let naming = ListingView::Naming { at: x, path: w.path_of_entry(x), rest, found };
            assert(run_listing(w, waiting) == run_listing(w, naming));
            let later = w.present(rest);
            assert(present =~= seq![x] + later);
            assert(present.drop_first() =~= later);
            lemma_filter_head(present, bad);
            if w.record_of(x) is Err {
                assert(w.unreadable(present)[0] == x);
            } else {
                let more = found.push(w.worktree_of(x));
                lemma_locating(w, rest, more);
                assert(more + later.map_values(make) =~= found + present.map_values(make));
            }
        }
    }
}

/// A listing gives the worktrees that are there, of those that the storage lists,
/// each by its recorded branch or else its directory name, the most recently
/// modified first; or it gives the first error that was met.
pub proof fn listing_is_what_is_available<E>(w: World<E>, current_repo_only: bool)
    ensures
        run_listing(w, ListingView::start(current_repo_only)) == w.listing(current_repo_only),
{
    let start = ListingView::start(current_repo_only);
    if w.entries(current_repo_only) is Ok {
        let entries = w.entries(current_repo_only)->Ok_0;
        lemma_locating(w, entries, Seq::empty());
        let present = w.present(entries);
        let make = |x: EntryView| w.worktree_of(x);
        let date = |x: WorktreeView| w.dated(x);
        let both = |x: EntryView| w.dated(w.worktree_of(x));
        assert((Seq::<WorktreeView>::empty() + present.map_values(make)).map_values(date)
            =~= present.map_values(both));
        if current_repo_only {
            if w.current_repo->Ok_0 is Some {
                let repo = w.current_repo->Ok_0->0;
                assert(run_listing(w, start) == run_listing(w, ListingView::RepoWorktrees(repo)));
                assert(run_listing(w, ListingView::RepoWorktrees(repo)) == finish_listing(
                    w,
                    listing::locate_next(entries, Seq::empty()),
                ));
            } else {
                assert(listing::in_order(Seq::empty()) =~= Seq::<WorktreeView>::empty());
                assert(present.map_values(both) =~= Seq::<DatedView>::empty());
            }
        }
    } else if current_repo_only && w.current_repo is Ok {
        let repo = w.current_repo->Ok_0->0;
        assert(run_listing(w, start) == run_listing(w, ListingView::RepoWorktrees(repo)));
    }
}

/// Resolving a target gives what it means.
pub proof fn resolving_gives_the_meaning<E>(w: World<E>, target: Seq<char>, repo: Seq<char>)
    ensures
        run_resolver(w, Resolver::start(target, repo)) == w.resolution(target, repo),
{
    reveal_with_fuel(run_resolver, 4);
}

/// What a target is taken to mean is vouched for. Unless it is a path, its worktree is
/// there; and the branch of a plain name is on record for that name, or it is that name
/// and git knows it as a branch.
pub proof fn resolutions_are_vouched_for<E>(w: World<E>, target: Seq<char>, repo: Seq<char>)
    requires
        !paths::path_is_absolute(paths::path_from_text(target)),
    ensures
        run_resolver(w, Resolver::start(target, repo)) matches Ok(resolved) ==> {
            &&& (w.exists)(resolved.path)
            &&& if text::has_special(target) {
                resolved.branch == target
            } else {
                ||| (w.original)(repo, target) == Ok::<_, E>(Some(resolved.branch))
                ||| resolved.branch == target && (w.local_branches matches Ok(Some(known))
                    && known.contains(target))
            }
        },
{
    resolving_gives_the_meaning(w, target, repo);
}

/// What a jump puts out and comes to in a world, from a step on.
spec fn finish_jump<E>(w: World<E>, step: Step<JumpView, LinesView, OutcomeView<E>>) -> (
    LinesView,
    OutcomeView<E>,
) {
    match step {
        Step::Continue { lines, session } => {
            let rest = run_jump(w, session);
            (lines + rest.0, rest.1)
        },
        Step::Done { lines, result } => (lines, result),
    }
}

/// A jump that collects worktrees goes on with what the listing comes to.
proof fn lemma_jump_listing<E>(w: World<E>, goal: Goal<Seq<char>>, listing: ListingView)
    requires
        !(goal is Complete && listing is CurrentRepo && w.lacks_current_repo(true)),
    ensures
        run_jump(w, JumpView::List { goal, listing }) == match run_listing(w, listing) {
            Ok(worktrees) => finish_jump(w, jump::with_worktrees(goal, worktrees)),
            Err(e) => (Seq::empty(), Err(CommandError::Failed(e))),
        },
    decreases listing_phase(listing), listing_left(listing),
{
    match listing.after(w.answer(listing.request())) {
        Progress::Waiting(next) => {
            lemma_jump_listing(w, goal, next);
            let rest = run_jump(w, JumpView::List { goal, listing: next });
            assert(LinesView::empty() + rest.0 =~= rest.0);
        },
        Progress::Finished(_) => {},
    }
}

/// A jump puts out the path of the worktree that is named or chosen, or the
/// completions, and comes to what the world makes of it.
pub proof fn jump_comes_to_its_outcome<E>(
    w: World<E>,
    target: Option<Seq<char>>,
    interactive: bool,
    list_completions: bool,
    current_repo_only: bool,
)
    ensures
        ({
            let goal = goal::goal_of(target, interactive, list_completions);
            run_jump(w, JumpView::OpenStorage { goal, current_repo_only }) == w.jump(
                goal,
                current_repo_only,
            )
        }),
{
    let goal = goal::goal_of(target, interactive, list_completions);
    let listing = ListingView::start(current_repo_only);
    if w.storage is Ok {
        listing_is_what_is_available(w, current_repo_only);
        if !(goal is Complete && w.lacks_current_repo(current_repo_only)) {
            lemma_jump_listing(w, goal, listing);
        }
        let rest = run_jump(w, JumpView::List { goal, listing });
        assert(LinesView::empty() + rest.0 =~= rest.0);
        if w.listing(current_repo_only) is Ok && goal is Choose {
            let worktrees = w.listing(current_repo_only)->Ok_0;
            if worktrees.len() > 0 {
                let menu = worktrees::menu("Jump to worktree:"@, worktrees)->0;
                let select = JumpView::Select(menu);
                assert(rest == (LinesView::empty() + run_jump(w, select).0, run_jump(w, select).1));
                assert(LinesView::empty() + run_jump(w, select).0 =~= run_jump(w, select).0);
                let choice = (w.choice)(menu.prompt, menu.options);
                if choice is Ok {
                    let extract = JumpView::Extract(choice->Ok_0);
                    assert(run_jump(w, select) == (
                        LinesView::empty() + run_jump(w, extract).0,
                        run_jump(w, extract).1,
                    ));
                    assert(LinesView::empty() + run_jump(w, extract).0 =~= run_jump(w, extract).0);
                }
            }
        }
    }
}

/// Completions of the current repository are not to be had where there is none: the jump
/// fails then, and puts out nothing.
pub proof fn completing_a_jump_needs_a_current_repository<E>(w: World<E>)
    requires
        w.storage is Ok,
        w.lacks_current_repo(true),
    ensures
        run_jump(
            w,
            JumpView::OpenStorage { goal: Goal::Complete, current_repo_only: true },
        ) == (LinesView::empty(), Err::<(), _>(CommandError::<Seq<char>, E>::NoCurrentRepo)),
{
    jump_comes_to_its_outcome(w, None, false, true, true);
}

/// The changes that the deletion of a branch makes.
spec fn deletion_changes<E>(w: World<E>, repo: Seq<char>, branch: Seq<char>) -> Seq<AskView> {
    if (w.branch_deleted)(branch) is Err {
        seq![Request::DeleteBranch(branch)]
    } else {
        seq![
            Request::DeleteBranch(branch),
            Request::UnmarkBranch { repo, branch },
            Request::RemoveMapping { repo, branch },
        ]
    }
}

/// A removal of which no more than the deletion of the branch is left.
proof fn lemma_run_deletion<E>(w: World<E>, ticket: Ticket<Seq<char>>, branch: Seq<char>)
    requires
        branch == w.branch_of(ticket),
        !ticket.preserve_branch,
    ensures
        ({
            let run = run_remove(
                w,
                RemoveView::Remove(Removal { ticket, stage: Stage::DeleteBranch(branch) }),
            );
            &&& run.changes == deletion_changes(w, ticket.repo, branch)
            &&& seq![Line::Stdout("Deleting branch: "@ + branch)] + run.lines == w.deletion_lines(
                ticket,
            ) + removal::farewell()
            &&& run.result == match (w.branch_deleted)(branch) {
                Ok(()) => Ok(()),
                Err(reason) => Err(CommandError::<_, E>::BranchNotDeleted(reason)),
            }
        }),
{
    reveal_with_fuel(run_remove, 3);
    let run = run_remove(
        w,
        RemoveView::Remove(Removal { ticket, stage: Stage::DeleteBranch(branch) }),
    );
    assert(run.changes =~= deletion_changes(w, ticket.repo, branch));
    assert(seq![Line::Stdout("Deleting branch: "@ + branch)] + run.lines =~= w.deletion_lines(
        ticket,
    ) + removal::farewell());
}

/// A removal whose branch is known and whose worktree is there.
proof fn lemma_run_changes<E>(w: World<E>, ticket: Ticket<Seq<char>>, branch: Seq<char>)
    requires
        branch == w.branch_of(ticket),
        (w.exists)(ticket.path),
    ensures
        ({
            let run = run_remove(
                w,
                RemoveView::Remove(Removal { ticket, stage: Stage::RecheckPath(branch) }),
            );
            &&& run.changes == w.changes(ticket)
            &&& run.result == w.removal(ticket)
            &&& removal::announcement(ticket) + w.branch_lines(ticket) + run.lines
                == w.removal_lines(ticket)
        }),
{
    reveal_with_fuel(run_remove, 5);
    let run = run_remove(
        w,
        RemoveView::Remove(Removal { ticket, stage: Stage::RecheckPath(branch) }),
    );
    if !ticket.preserve_branch {
        lemma_run_deletion(w, ticket, branch);
    }
    let begun = removal::announcement(ticket) + w.branch_lines(ticket);
    assert(run.changes =~= w.changes(ticket));
    if !w.is_removable(ticket) {
        assert(begun + run.lines =~= w.removal_lines(ticket));
    } else {
        let warned = removal::warning(
            "clean up origin information"@,
            (w.origin_removed)(ticket.repo, branch),
        );
        let tail = w.deletion_lines(ticket) + removal::farewell();
        assert(run.lines =~= warned + tail);
        assert(begun + run.lines =~= w.removal_lines(ticket));
    }
}

/// A removal makes the changes that the world tells, in that order, puts out what it
/// tells, and comes to what it tells.
pub proof fn removal_comes_to_its_outcome<E>(w: World<E>, ticket: Ticket<Seq<char>>)
    ensures
        run_remove(w, RemoveView::Remove(Removal { ticket, stage: Stage::CheckPath })) == (Run {
            changes: w.changes(ticket),
            lines: w.removal_lines(ticket),
            result: w.removal(ticket),
        }),
{
    reveal_with_fuel(run_remove, 4);
    let run = run_remove(w, RemoveView::Remove(Removal { ticket, stage: Stage::CheckPath }));
    if (w.exists)(ticket.path) {
        let branch = w.branch_of(ticket);
        lemma_run_changes(w, ticket, branch);
        let rest = run_remove(
            w,
            RemoveView::Remove(Removal { ticket, stage: Stage::RecheckPath(branch) }),
        );
        assert(run.changes =~= rest.changes);
        assert(run.lines =~= removal::announcement(ticket) + w.branch_lines(ticket) + rest.lines);
    }
    assert(run.lines =~= w.removal_lines(ticket));
    assert(run.changes =~= w.changes(ticket));
}

/// What a remove command does in a world, from a step on.
spec fn finish_remove<E>(w: World<E>, step: RemoveStepView<E>) -> Run<E> {
    match step {
        Step::Continue { lines, session } => {
            let rest = run_remove(w, session);
            Run { changes: rest.changes, lines: lines + rest.lines, result: rest.result }
        },
        Step::Done { lines, result } => Run { changes: Seq::empty(), lines, result },
    }
}

/// A command that goes on without a word and without a change does what is left.
proof fn lemma_silent_step<E>(w: World<E>, from: RemoveView, to: RemoveView)
    requires
        !world::is_change(from.request()),
        from.after(w.answer(from.request())) == remove::go_on::<E>(to),
    ensures
        run_remove(w, from) == run_remove(w, to),
{
    let rest = run_remove(w, to);
    assert(LinesView::empty() + rest.lines =~= rest.lines);
    assert(Seq::<AskView>::empty() + rest.changes =~= rest.changes);
}

/// A command that collects worktrees for completion puts out what the listing comes
/// to.
proof fn lemma_remove_completing<E>(w: World<E>, listing: ListingView)
    ensures
        run_remove(w, RemoveView::Complete(listing)) == match run_listing(w, listing) {
            Ok(worktrees) => Run {
                changes: Seq::empty(),
                lines: goal::completion_lines(worktrees),
                result: Ok(()),
            },
            Err(e) => world::stopped(CommandError::Failed(e)),
        },
    decreases listing_phase(listing), listing_left(listing),
{
    match listing.after(w.answer(listing.request())) {
        Progress::Waiting(next) => {
            lemma_remove_completing(w, next);
            lemma_silent_step(w, RemoveView::Complete(listing), RemoveView::Complete(next));
        },
        Progress::Finished(_) => {},
    }
}

/// A command that collects worktrees to choose from goes on with what the listing
/// comes to.
proof fn lemma_remove_listing<E>(
    w: World<E>,
    repo: Seq<char>,
    preserve_branch: bool,
    listing: ListingView,
)
    ensures
        run_remove(w, RemoveView::List { repo, preserve_branch, listing }) == match run_listing(
            w,
            listing,
        ) {
            Ok(worktrees) => finish_remove(
                w,
                remove::with_worktrees(repo, preserve_branch, worktrees),
            ),
            Err(e) => world::stopped(CommandError::Failed(e)),
        },
    decreases listing_phase(listing), listing_left(listing),
{
    let here = RemoveView::List { repo, preserve_branch, listing };
    match listing.after(w.answer(listing.request())) {
        Progress::Waiting(next) => {
            lemma_remove_listing(w, repo, preserve_branch, next);
            lemma_silent_step(w, here, RemoveView::List { repo, preserve_branch, listing: next });
        },
        Progress::Finished(Ok(worktrees)) => {
            let step = remove::with_worktrees::<E>(repo, preserve_branch, worktrees);
            if step is Continue {
                lemma_silent_step(w, here, step->Continue_session);
                let rest = run_remove(w, step->Continue_session);
                assert(LinesView::empty() + rest.lines =~= rest.lines);
            }
        },
        Progress::Finished(Err(_)) => {},
    }
}

/// A command that resolves its target goes on with what that means.
proof fn lemma_remove_resolving<E>(
    w: World<E>,
    repo: Seq<char>,
    preserve_branch: bool,
    resolver: ResolverView,
)
    ensures
        run_remove(w, RemoveView::Resolve { repo, preserve_branch, resolver }) == match run_resolver(
            w,
            resolver,
        ) {
            Ok(resolved) => run_remove(
                w,
                RemoveView::Remove(
                    Removal {
                        ticket: Ticket {
                            repo,
                            path: resolved.path,
                            branch: resolved.branch,
                            preserve_branch,
                        },
                        stage: Stage::CheckPath,
                    },
                ),
            ),
            Err(error) => world::stopped(error),
        },
    decreases resolver_left(resolver),
{
    let here = RemoveView::Resolve { repo, preserve_branch, resolver };
    match resolver.after(w.answer(resolver.request())) {
        Progress::Waiting(next) => {
            lemma_remove_resolving(w, repo, preserve_branch, next);
            lemma_silent_step(
                w,
                here,
                RemoveView::Resolve { repo, preserve_branch, resolver: next },
            );
        },
        Progress::Finished(Ok(resolved)) => {
            let ticket = Ticket {
                repo,
                path: resolved.path,
                branch: resolved.branch,
                preserve_branch,
            };
            lemma_silent_step(
                w,
                here,
                RemoveView::Remove(Removal { ticket, stage: Stage::CheckPath }),
            );
        },
        Progress::Finished(Err(_)) => {},
    }
}

/// A remove command removes the worktree that is named or chosen, as the world lets
/// it, or puts out the completions; and it does nothing else.
pub proof fn remove_comes_to_its_outcome<E>(
    w: World<E>,
    target: Option<Seq<char>>,
    preserve_branch: bool,
    interactive: bool,
    list_completions: bool,
    current_repo_only: bool,
)
    ensures
        ({
            let goal = goal::goal_of(target, interactive, list_completions);
            run_remove(
                w,
                RemoveView::OpenStorage { goal, preserve_branch, current_repo_only },
            ) == w.remove(goal, preserve_branch, current_repo_only)
        }),
{
    let goal = goal::goal_of(target, interactive, list_completions);
    let start = RemoveView::OpenStorage { goal, preserve_branch, current_repo_only };
    let listing = ListingView::start(current_repo_only);
    if w.storage is Ok {
        listing_is_what_is_available(w, current_repo_only);
        if goal is Complete {
            lemma_silent_step(w, start, RemoveView::Complete(listing));
            lemma_remove_completing(w, listing);
        } else {
            let named = match goal {
                Goal::Named(t) => Some(t),
                _ => None,
            };
            let open = RemoveView::OpenRepo { target: named, preserve_branch, current_repo_only };
            lemma_silent_step(w, start, open);
            if w.opened_repo is Ok {
                let repo = w.opened_repo->Ok_0;
                if named is Some {
                    let resolver = Resolver::start(named->0, repo);
                    lemma_silent_step(
                        w,
                        open,
                        RemoveView::Resolve { repo, preserve_branch, resolver },
                    );
                    lemma_remove_resolving(w, repo, preserve_branch, resolver);
                    resolving_gives_the_meaning(w, named->0, repo);
                } else {
                    lemma_silent_step(
                        w,
                        open,
                        RemoveView::List { repo, preserve_branch, listing },
                    );
                    lemma_remove_listing(w, repo, preserve_branch, listing);
                    if w.listing(current_repo_only) is Ok {
                        lemma_remove_choosing(
                            w,
                            repo,
                            preserve_branch,
                            w.listing(current_repo_only)->Ok_0,
                        );
                    }
                }
                if w.victim(named, repo, current_repo_only) is Ok {
                    let resolved = w.victim(named, repo, current_repo_only)->Ok_0;
                    removal_comes_to_its_outcome(
                        w,
                        Ticket {
                            repo,
                            path: resolved.path,
                            branch: resolved.branch,
                            preserve_branch,
                        },
                    );
                }
            }
        }
    }
}

/// A command that lets the user choose removes what is chosen.
proof fn lemma_remove_choosing<E>(
    w: World<E>,
    repo: Seq<char>,
    preserve_branch: bool,
    worktrees: Seq<WorktreeView>,
)
    ensures
        finish_remove(w, remove::with_worktrees(repo, preserve_branch, worktrees)) == match w.chosen(
            "Select worktree to remove:"@,
            worktrees,
        ) {
            Err(error) => world::stopped(error),
            Ok(selection) => match ((w.path_in)(selection), (w.branch_in)(selection)) {
                (Err(e), _) => world::stopped(CommandError::Failed(e)),
                (Ok(_), Err(e)) => world::stopped(CommandError::Failed(e)),
                (Ok(path), Ok(branch)) => run_remove(
                    w,
                    RemoveView::Remove(
                        Removal {
                            ticket: Ticket { repo, path, branch, preserve_branch },
                            stage: Stage::CheckPath,
                        },
                    ),
                ),
            },
        },
{
    if worktrees.len() > 0 {
        let menu = worktrees::menu("Select worktree to remove:"@, worktrees)->0;
        let select = RemoveView::Select { repo, preserve_branch, menu };
        let rest = run_remove(w, select);
        assert(LinesView::empty() + rest.lines =~= rest.lines);
        let choice = (w.choice)(menu.prompt, menu.options);
        if choice is Ok {
            let selection = choice->Ok_0;
            let extract = RemoveView::ExtractPath { repo, preserve_branch, selection };
            lemma_silent_step(w, select, extract);
            if (w.path_in)(selection) is Ok {
                let path = (w.path_in)(selection)->Ok_0;
                let second = RemoveView::ExtractBranch { repo, preserve_branch, path, selection };
                lemma_silent_step(w, extract, second);
                if (w.branch_in)(selection) is Ok {
                    let branch = (w.branch_in)(selection)->Ok_0;
                    lemma_silent_step(
                        w,
                        second,
                        RemoveView::Remove(
                            Removal {
                                ticket: Ticket { repo, path, branch, preserve_branch },
                                stage: Stage::CheckPath,
                            },
                        ),
                    );
                }
            }
        }
    }
}

/// Both commands offer the same completions, and fail alike where they cannot be had,
/// unless it is for want of a current repository: there only the jump fails.
pub proof fn commands_offer_the_same_completions<E>(
    w: World<E>,
    preserve_branch: bool,
    current_repo_only: bool,
)
    requires
        !w.lacks_current_repo(current_repo_only),
    ensures
        ({
            let jump = run_jump(
                w,
                JumpView::OpenStorage { goal: Goal::Complete, current_repo_only },
            );
            let remove = run_remove(
                w,
                RemoveView::OpenStorage {
                    goal: Goal::Complete,
                    preserve_branch,
                    current_repo_only,
                },
            );
            jump.0 == remove.lines && jump.1 == remove.result
        }),
{
    jump_comes_to_its_outcome(w, None, false, true, current_repo_only);
    remove_comes_to_its_outcome(w, None, preserve_branch, false, true, current_repo_only);
}

// ---------------------------------------------------------------------------
// Commands in surroundings that may change
// ---------------------------------------------------------------------------

/// Where a remove command stands after some replies, whatever they are.
pub open spec fn replay<E>(session: RemoveView, replies: Seq<AnswerView<E>>) -> RemoveStepView<E>
    decreases replies.len(),
{
    if replies.len() == 0 {
        remove::go_on(session)
    } else {
        match replay(session, replies.drop_last()) {
            Step::Continue { session: reached, .. } => reached.after(replies.last()),
            done => done,
        }
    }
}

/// A reply that does not answer what was asked changes nothing.
pub proof fn strays_change_nothing<E>(jump: JumpView, remove: RemoveView, reply: AnswerView<E>)
    ensures
        !world::answers(reply, jump.request()) ==> jump.after(reply) == jump::go_on::<E>(jump),
        !world::answers(reply, remove.request()) ==> remove.after(reply) == remove::go_on::<E>(
            remove,
        ),
{
}

/// Every reply that answers what was asked ends the command or brings its end nearer.
/// So a command ends, whatever it is told.
pub proof fn answers_bring_the_end_nearer<E>(
    jump: JumpView,
    remove: RemoveView,
    reply: AnswerView<E>,
)
    ensures
        world::answers(reply, jump.request()) ==> match jump.after(reply) {
            Step::Continue { session, .. } => nearer(jump_distance(session), jump_distance(jump)),
            Step::Done { .. } => true,
        },
        world::answers(reply, remove.request()) ==> match remove.after(reply) {
            Step::Continue { session, .. } => nearer(
                remove_distance(session),
                remove_distance(remove),
            ),
            Step::Done { .. } => true,
        },
{
}

/// A jump never asks for a change.
pub proof fn jump_changes_nothing(jump: JumpView)
    ensures
        !world::is_change(jump.request()),
{
}

/// A remove command that is to list completions never asks for a change, whatever it
/// is told.
pub proof fn completing_changes_nothing<E>(
    preserve_branch: bool,
    current_repo_only: bool,
    replies: Seq<AnswerView<E>>,
)
    ensures
        ({
            let start = RemoveView::OpenStorage {
                goal: Goal::Complete,
                preserve_branch,
                current_repo_only,
            };
            replay(start, replies) matches Step::Continue { session, .. } ==> !world::is_change(
                session.request(),
            )
        }),
{
    lemma_completing(preserve_branch, current_repo_only, replies);
}

/// A remove command that is to list completions stays with that.
proof fn lemma_completing<E>(
    preserve_branch: bool,
    current_repo_only: bool,
    replies: Seq<AnswerView<E>>,
)
    ensures
        ({
            let start = RemoveView::OpenStorage {
                goal: Goal::Complete,
                preserve_branch,
                current_repo_only,
            };
            replay(start, replies) matches Step::Continue { session, .. } ==> session == start
                || session is Complete
        }),
    decreases replies.len(),
{
    if replies.len() > 0 {
        lemma_completing(preserve_branch, current_repo_only, replies.drop_last());
    }
}

/// Whether a request would take away a branch, or what is known of it.
pub open spec fn touches_branch(ask: AskView) -> bool {
    ask is DeleteBranch || ask is UnmarkBranch || ask is RemoveMapping
}

/// Whether a remove command is bound to preserve the branch.
spec fn preserving(session: RemoveView) -> bool {
    match session {
        RemoveView::OpenStorage { preserve_branch, .. } => preserve_branch,
        RemoveView::Complete(_) => true,
        RemoveView::OpenRepo { preserve_branch, .. } => preserve_branch,
        RemoveView::List { preserve_branch, .. } => preserve_branch,
        RemoveView::Select { preserve_branch, .. } => preserve_branch,
        RemoveView::ExtractPath { preserve_branch, .. } => preserve_branch,
        RemoveView::ExtractBranch { preserve_branch, .. } => preserve_branch,
        RemoveView::Resolve { preserve_branch, .. } => preserve_branch,
        RemoveView::Remove(removal) => removal.ticket.preserve_branch && !touches_branch(
            removal.request(),
        ),
    }
}

/// A remove command that is bound to preserve the branch stays so.
proof fn lemma_preserving<E>(session: RemoveView, replies: Seq<AnswerView<E>>)
    requires
        preserving(session),
    ensures
        replay(session, replies) matches Step::Continue { session: reached, .. } ==> preserving(
            reached,
        ),
    decreases replies.len(),
{
    if replies.len() > 0 {
        lemma_preserving(session, replies.drop_last());
    }
}

/// A remove command that is told to preserve the branch never asks for its deletion,
/// nor for anything to be forgotten about it, whatever it is told later.
pub proof fn branch_is_preserved<E>(
    target: Option<Seq<char>>,
    interactive: bool,
    list_completions: bool,
    current_repo_only: bool,
    replies: Seq<AnswerView<E>>,
)
    ensures
        ({
            let start = RemoveView::OpenStorage {
                goal: goal::goal_of(target, interactive, list_completions),
                preserve_branch: true,
                current_repo_only,
            };
            replay(start, replies) matches Step::Continue { session, .. } ==> !touches_branch(
                session.request(),
            )
        }),
{
    lemma_preserving(
        RemoveView::OpenStorage {
            goal: goal::goal_of(target, interactive, list_completions),
            preserve_branch: true,
            current_repo_only,
        },
        replies,
    );
}

/// The changes of a removal come in order, and each only once the one before it has
/// been made: the directory goes right after it was seen to be there; git's record
/// goes when the directory is gone; the origin goes when the record is gone; then the
/// branch; and what is known of the branch goes only when the branch itself is gone.
pub proof fn changes_come_in_order<E>(session: RemoveView, reply: AnswerView<E>, next: RemoveView)
    requires
        world::answers(reply, session.request()),
        session.after(reply) matches Step::Continue { session: reached, .. } && reached == next,
    ensures
        match next.request() {
            Request::RemoveDirectory(path) => session.request() == AskView::PathExists(path)
                && reply == AnswerView::<E>::PathExists(true),
            Request::PruneWorktree(_) => {
                ||| session.request() is RemoveDirectory && (reply matches Reply::DirectoryRemoved(
                    removed,
                ) && removed is Ok)
                ||| session.request() is PathExists && reply == AnswerView::<E>::PathExists(false)
            },
            Request::RemoveOrigin { .. } => session.request() is PruneWorktree && (
            reply matches Reply::WorktreePruned(pruned) && pruned is Ok),
            Request::DeleteBranch(branch) => session.request() matches Request::RemoveOrigin {
                branch: same,
                ..
            } && same == branch,
            Request::UnmarkBranch { branch, .. } => session.request() == AskView::DeleteBranch(
                branch,
            ) && (reply matches Reply::BranchDeleted(deleted) && deleted is Ok),
            Request::RemoveMapping { repo, branch } => session.request() == (
            AskView::UnmarkBranch { repo, branch }),
            _ => true,
        },
{
}

/// A branch that cannot be deleted makes the command fail, then and there: nothing that
/// is known of the branch is taken away.
pub proof fn undeleted_branch_is_an_error<E>(session: RemoveView, reason: Seq<char>)
    requires
        session.request() is DeleteBranch,
    ensures
        session.after(AnswerView::<E>::BranchDeleted(Err(reason))) matches Step::Done {
            result,
            ..
        } && result == Err::<(), _>(CommandError::<Seq<char>, E>::BranchNotDeleted(reason)),
{
}

/// Once git's record of the worktree is gone, the command fails only where the branch
/// is to go and cannot be deleted. Where the stored origin or the mapping cannot be
/// removed, that is only warned about.
pub proof fn only_the_branch_can_fail_after_pruning<E>(
    removal: RemovalView,
    pruned: AnswerView<E>,
    replies: Seq<AnswerView<E>>,
)
    requires
        removal.request() is PruneWorktree,
        pruned matches Reply::WorktreePruned(r) && r is Ok,
    ensures
        RemoveView::Remove(removal).after(pruned) matches Step::Continue { session: reached, .. }
            && (replay(reached, replies) matches Step::Done { result, .. } ==> match result {
            Ok(()) => true,
            Err(error) => !removal.ticket.preserve_branch && error is BranchNotDeleted
                && replies.contains(AnswerView::<E>::BranchDeleted(Err(error->BranchNotDeleted_0))),
        }),
{
    let session = RemoveView::Remove(removal);
    let reached = session.after(pruned)->Continue_session;
    assert(removal.stage is Prune);
    lemma_after_pruning(removal.ticket.preserve_branch, reached, replies);
}

/// Whether git's record of the worktree is gone already, in a removal of one mind about
/// the branch.
spec fn pruned_already(preserve_branch: bool, session: RemoveView) -> bool {
    match session {
        RemoveView::Remove(removal) => {
            &&& removal_left(removal) <= 4
            &&& removal.ticket.preserve_branch == preserve_branch
            &&& preserve_branch ==> removal.stage is RemoveOrigin
        },
        _ => false,
    }
}

/// A removal after the pruning goes on, succeeds, or fails over the branch.
proof fn lemma_after_pruning<E>(
    preserve_branch: bool,
    session: RemoveView,
    replies: Seq<AnswerView<E>>,
)
    requires
        pruned_already(preserve_branch, session),
    ensures
        match replay(session, replies) {
            Step::Continue { session: reached, .. } => pruned_already(preserve_branch, reached),
            Step::Done { result, .. } => match result {
                Ok(()) => true,
                Err(error) => !preserve_branch && error is BranchNotDeleted && replies.contains(
                    AnswerView::<E>::BranchDeleted(Err(error->BranchNotDeleted_0)),
                ),
            },
        },
    decreases replies.len(),
{
    if replies.len() > 0 {
        let earlier = replies.drop_last();
        lemma_after_pruning(preserve_branch, session, earlier);
        match replay(session, earlier) {
            Step::Continue { .. } => {
                assert(replies.contains(replies.last())) by {
                    assert(replies[replies.len() - 1] == replies.last());
                }
            },
            Step::Done { result, .. } => {
                if result is Err {
                    let failed = AnswerView::<E>::BranchDeleted(
                        Err(result->Err_0->BranchNotDeleted_0),
                    );
                    let i = choose|i: int| 0 <= i < earlier.len() && earlier[i] == failed;
                    assert(replies[i] == failed);
                }
            },
        }
    }
}

/// Whichever worktree a removal is about, it stays with it: no reply can turn it to
/// another path, another repository, or another mind about the branch.
pub proof fn removal_sticks_to_its_worktree<E>(removal: RemovalView, replies: Seq<AnswerView<E>>)
    ensures
        replay(RemoveView::Remove(removal), replies) matches Step::Continue { session, .. } ==> (
        session matches RemoveView::Remove(reached) && reached.ticket == removal.ticket),
    decreases replies.len(),
{
    if replies.len() > 0 {
        removal_sticks_to_its_worktree(removal, replies.drop_last());
    }
}

// ---------------------------------------------------------------------------
// Names
// ---------------------------------------------------------------------------

/// What is offered for completion can be jumped to: the branch of a listed worktree
/// means the first worktree of that branch, whatever other branches it occurs in.
pub proof fn completions_can_be_jumped_to(worktrees: Seq<WorktreeView>, i: int)
    requires
        0 <= i < worktrees.len(),
    ensures
        ({
            let completion = worktrees::branches(worktrees)[i];
            exists|j: int|
                0 <= j <= i && #[trigger] worktrees[j].branch == completion && worktrees::lookup(
                    worktrees,
                    completion,
                ) == Lookup::<Seq<WorktreeView>>::Found(worktrees[j].path) && forall|k: int|
                    0 <= k < j ==> (#[trigger] worktrees[k]).branch != completion
        }),
{
    let completion = worktrees[i].branch;
    lemma_first_exact(worktrees, completion, i);
}

/// The first worktree of a branch is the first of its exact matches.
proof fn lemma_first_exact(worktrees: Seq<WorktreeView>, target: Seq<char>, i: int) -> (j: int)
    requires
        0 <= i < worktrees.len(),
        worktrees[i].branch == target,
    ensures
        0 <= j <= i,
        worktrees[j].branch == target,
        forall|k: int| 0 <= k < j ==> (#[trigger] worktrees[k]).branch != target,
        worktrees::exact_matches(worktrees, target).len() > 0,
        worktrees::exact_matches(worktrees, target)[0] == worktrees[j],
    decreases worktrees.len(),
{
    let pred = worktrees::is_exact(target);
    lemma_filter_head(worktrees, pred);
    if worktrees[0].branch == target {
        0
    } else {
        let rest = worktrees.drop_first();
        assert(rest[i - 1] == worktrees[i]);
        let j = lemma_first_exact(rest, target, i - 1);
        assert forall|k: int| 0 <= k < j + 1 implies (#[trigger] worktrees[k]).branch != target by {
            if k > 0 {
                assert(rest[k - 1] == worktrees[k]);
            }
        }
        assert(worktrees[j + 1] == rest[j]);
        j + 1
    }
}

/// A name that is found leads to a listed worktree in whose branch it occurs.
pub proof fn what_is_found_is_listed(worktrees: Seq<WorktreeView>, target: Seq<char>)
    ensures
        worktrees::lookup(worktrees, target) matches Lookup::Found(path) ==> exists|i: int|
            0 <= i < worktrees.len() && (#[trigger] worktrees[i]).path == path
                && text::has_substring(worktrees[i].branch, target),
{
    let exact = worktrees::is_exact(target);
    let partial = worktrees::is_partial(target);
    if worktrees::exact_matches(worktrees, target).len() > 0 {
        let first = worktrees.filter(exact)[0];
        worktrees.lemma_filter_pred(exact, 0);
        worktrees.lemma_filter_contains_rev(exact, first);
        let i = choose|i: int| 0 <= i < worktrees.len() && worktrees[i] == first;
        assert(worktrees[i].branch.skip(0) =~= target);
        assert(target.is_prefix_of(worktrees[i].branch.skip(0)));
        assert(worktrees[i].path == first.path);
    } else if worktrees::partial_matches(worktrees, target).len() == 1 {
        let first = worktrees.filter(partial)[0];
        worktrees.lemma_filter_pred(partial, 0);
        worktrees.lemma_filter_contains_rev(partial, first);
        let i = choose|i: int| 0 <= i < worktrees.len() && worktrees[i] == first;
        assert(worktrees[i].path == first.path);
    }
}

} // verus!
