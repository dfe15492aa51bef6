//! What the commands do, told from end to end.
//!
//! Commands are run to their end in a [`World`], and each law tells in plain terms what
//! they put out, what they ask for and what they come to. The steps of a removal are
//! told in the order in which they are taken, what is said among what is asked.
use std::path::PathBuf;
use vstd::prelude::*;

use crate::goal;
use crate::goal::Goal;
use crate::jump::JumpView;
use crate::laws;
use crate::listing::ListingView;
use crate::paths;
use crate::protocol::{
    AnswerView, AskView, CommandError, Line, LinesView, OutcomeView, Reply, Request, Step,
};
use crate::removal;
use crate::removal::{Removal, RemovalView, Stage, Ticket};
use crate::remove::RemoveView;
use crate::resolve::{Resolved, ResolutionView, Resolver};
use crate::text;
use crate::world::World;
use crate::worktrees;
use crate::worktrees::{Lookup, WorktreeView};

verus! {

// ---------------------------------------------------------------------------
// Removing
// ---------------------------------------------------------------------------

/// One thing that a removal does.
pub enum Deed {
    Asks(AskView),
    Says(Line<Seq<char>>),
}

/// Lines, as things that are done.
pub open spec fn saying(lines: LinesView) -> Seq<Deed> {
    lines.map_values(|line: Line<Seq<char>>| Deed::Says(line))
}

/// What a removal does from where it stands, in order, and what it comes to, when it is
/// run to its end in a world.
pub open spec fn course<E>(w: World<E>, removal: RemovalView) -> (Seq<Deed>, OutcomeView<E>)
    decreases laws::removal_left(removal),
{
    let ask = removal.request();
    match removal.after(w.answer(ask)) {
        Step::Continue { lines, session } => {
            let rest = course(w, session);
            (seq![Deed::Asks(ask)] + saying(lines) + rest.0, rest.1)
        },
        Step::Done { lines, result } => (seq![Deed::Asks(ask)] + saying(lines), result),
    }
}

/// A remove command that has come to the removal does what the removal does, and no more.
pub proof fn a_removal_is_all_there_is<E>(removal: RemovalView, reply: AnswerView<E>)
    ensures
        RemoveView::Remove(removal).request() == removal.request(),
        match (removal.after(reply), RemoveView::Remove(removal).after(reply)) {
            (
                Step::Continue { lines, session },
                Step::Continue { lines: shown, session: reached },
            ) => shown == lines && reached == RemoveView::Remove(session),
            (Step::Done { lines, result }, Step::Done { lines: shown, result: told }) => shown
                == lines && told == result,
            _ => false,
        },
{
}

/// A worktree that is not there is not removed: nothing is done but to look.
pub proof fn a_missing_worktree_is_left_alone<E>(w: World<E>, ticket: Ticket<Seq<char>>)
    requires
        !(w.exists)(ticket.path),
    ensures
        ({
            let (deeds, result) = course(w, Removal { ticket, stage: Stage::CheckPath });
            &&& deeds == seq![Deed::Asks(AskView::PathExists(ticket.path))]
            &&& result == Err::<(), _>(CommandError::<Seq<char>, E>::PathMissing(ticket.path))
        }),
{
    let (deeds, _) = course(w, Removal { ticket, stage: Stage::CheckPath });
    assert(deeds =~= seq![Deed::Asks(AskView::PathExists(ticket.path))]);
}

/// The lines about a branch that became known, read as a whole.
proof fn lemma_correction(branch: Seq<char>, given: Seq<char>)
    ensures
        branch == given ==> removal::correction("HEAD"@, branch, given) == LinesView::empty(),
        branch == given ==> removal::correction("mapping"@, branch, given) == LinesView::empty(),
        branch != given ==> removal::correction("HEAD"@, branch, given) == seq![
            Line::Stdout("Resolved branch from HEAD: "@ + branch + " (was: "@ + given + ")"@),
        ],
        branch != given ==> removal::correction("mapping"@, branch, given) == seq![
            Line::Stdout("Resolved branch from mapping: "@ + branch + " (was: "@ + given + ")"@),
        ],
{
    reveal_strlit("Resolved branch from ");
    reveal_strlit("HEAD");
    reveal_strlit("mapping");
    reveal_strlit(": ");
    reveal_strlit("Resolved branch from HEAD: ");
    reveal_strlit("Resolved branch from mapping: ");
    assert("Resolved branch from "@ + "HEAD"@ + ": "@ =~= "Resolved branch from HEAD: "@);
    assert("Resolved branch from "@ + "mapping"@ + ": "@ =~= "Resolved branch from mapping: "@);
}

/// The warnings, read as a whole.
proof fn lemma_warning(reason: Seq<char>)
    ensures
        removal::warning("clean up origin information"@, Err(reason)) == seq![
            Line::Stdout("⚠ Warning: Failed to clean up origin information: "@ + reason),
        ],
        removal::warning("delete branch"@, Err(reason)) == seq![
            Line::Stdout("⚠ Warning: Failed to delete branch: "@ + reason),
        ],
        removal::warning("remove branch mapping"@, Err(reason)) == seq![
            Line::Stdout("⚠ Warning: Failed to remove branch mapping: "@ + reason),
        ],
{
    reveal_strlit("⚠ Warning: Failed to ");
    reveal_strlit(": ");
    reveal_strlit("clean up origin information");
    reveal_strlit("delete branch");
    reveal_strlit("remove branch mapping");
    reveal_strlit("⚠ Warning: Failed to clean up origin information: ");
    reveal_strlit("⚠ Warning: Failed to delete branch: ");
    reveal_strlit("⚠ Warning: Failed to remove branch mapping: ");
    assert("⚠ Warning: Failed to "@ + "clean up origin information"@ + ": "@
        =~= "⚠ Warning: Failed to clean up origin information: "@);
    assert("⚠ Warning: Failed to "@ + "delete branch"@ + ": "@
        =~= "⚠ Warning: Failed to delete branch: "@);
    assert("⚠ Warning: Failed to "@ + "remove branch mapping"@ + ": "@
        =~= "⚠ Warning: Failed to remove branch mapping: "@);
}

/// A removal says what it is about and then makes out the branch: the one that is checked
/// out in the worktree, whatever was given; failing that, the one on record for the file
/// name of the worktree's path; failing that, the one that was given. It says by what
/// means the branch became known, unless it is the one that was given. Where the path
/// has a file name that is text, that is the name, whatever its length; where it has
/// none, the given branch is taken for the name.
pub proof fn the_branch_is_made_out<E>(w: World<E>, ticket: Ticket<Seq<char>>, name: Seq<char>)
    requires
        (w.exists)(ticket.path),
        match paths::path_file_name(ticket.path) {
            Some(file_name) => name == file_name,
            None => name == ticket.branch,
        },
    ensures
        ({
            let told = seq![
                Deed::Asks(AskView::PathExists(ticket.path)),
                Deed::Says(
                    Line::Stdout("Removing worktree: "@ + paths::path_display(ticket.path)),
                ),
                Deed::Says(Line::Stdout("Branch: "@ + ticket.branch)),
                Deed::Asks(AskView::HeadBranch(ticket.path)),
            ];
            let (deeds, result) = course(w, Removal { ticket, stage: Stage::CheckPath });
            match (w.head)(ticket.path) {
                Ok(branch) => {
                    let rest = course(w, Removal { ticket, stage: Stage::RecheckPath(branch) });
                    &&& result == rest.1
                    &&& branch == ticket.branch ==> deeds == told + rest.0
                    &&& branch != ticket.branch ==> deeds == told.push(
                        Deed::Says(
                            Line::Stdout(
                                "Resolved branch from HEAD: "@ + branch + " (was: "@
                                    + ticket.branch + ")"@,
                            ),
                        ),
                    ) + rest.0
                },
                Err(reason) => {
                    let asked = told.push(
                        Deed::Says(
                            Line::Stdout(
                                "⚠ Warning: Could not resolve branch from HEAD ("@ + reason
                                    + "). Attempting to use branch mapping..."@,
                            ),
                        ),
                    ).push(Deed::Asks(AskView::OriginalBranch { repo: ticket.repo, name }));
                    match (w.original)(ticket.repo, name) {
                        Ok(Some(branch)) => {
                            let rest = course(
                                w,
                                Removal { ticket, stage: Stage::RecheckPath(branch) },
                            );
                            &&& result == rest.1
                            &&& branch == ticket.branch ==> deeds == asked + rest.0
                            &&& branch != ticket.branch ==> deeds == asked.push(
                                Deed::Says(
                                    Line::Stdout(
                                        "Resolved branch from mapping: "@ + branch + " (was: "@
                                            + ticket.branch + ")"@,
                                    ),
                                ),
                            ) + rest.0
                        },
                        _ => {
                            let rest = course(
                                w,
                                Removal { ticket, stage: Stage::RecheckPath(ticket.branch) },
                            );
                            &&& result == rest.1
                            &&& deeds == asked.push(
                                Deed::Says(
                                    Line::Stdout(
                                        "⚠ Warning: Branch mapping not found. Using provided value: "@
                                            + ticket.branch,
                                    ),
                                ),
                            ) + rest.0
                        },
                    }
                },
            }
        }),
{
    reveal_with_fuel(course, 4);
    let told = seq![
        Deed::Asks(AskView::PathExists(ticket.path)),
        Deed::Says(Line::Stdout("Removing worktree: "@ + paths::path_display(ticket.path))),
        Deed::Says(Line::Stdout("Branch: "@ + ticket.branch)),
        Deed::Asks(AskView::HeadBranch(ticket.path)),
    ];
    let (deeds, result) = course(w, Removal { ticket, stage: Stage::CheckPath });
    match (w.head)(ticket.path) {
        Ok(branch) => {
            lemma_correction(branch, ticket.branch);
            let rest = course(w, Removal { ticket, stage: Stage::RecheckPath(branch) });
            let said = saying(removal::correction("HEAD"@, branch, ticket.branch));
            assert(deeds =~= told + said + rest.0);
            if branch == ticket.branch {
                assert(told + said =~= told);
            } else {
                assert(told + said =~= told.push(said[0]));
            }
        },
        Err(reason) => {
            let asked = told.push(
                Deed::Says(
                    Line::Stdout(
                        "⚠ Warning: Could not resolve branch from HEAD ("@ + reason
                            + "). Attempting to use branch mapping..."@,
                    ),
                ),
            ).push(Deed::Asks(AskView::OriginalBranch { repo: ticket.repo, name }));
            match (w.original)(ticket.repo, name) {
                Ok(Some(branch)) => {
                    lemma_correction(branch, ticket.branch);
                    let rest = course(w, Removal { ticket, stage: Stage::RecheckPath(branch) });
                    let said = saying(removal::correction("mapping"@, branch, ticket.branch));
                    assert(deeds =~= asked + said + rest.0);
                    if branch == ticket.branch {
                        assert(asked + said =~= asked);
                    } else {
                        assert(asked + said =~= asked.push(said[0]));
                    }
                },
                _ => {
                    let rest = course(
                        w,
                        Removal { ticket, stage: Stage::RecheckPath(ticket.branch) },
                    );
                    let said = Deed::Says(
                        Line::Stdout(
                            "⚠ Warning: Branch mapping not found. Using provided value: "@
                                + ticket.branch,
                        ),
                    );
                    assert(deeds =~= asked.push(said) + rest.0);
                },
            }
        },
    }
}

/// Once the branch is known, the directory goes if it is there. Where it cannot be
/// removed, that is the end. Where it is gone already, the removal goes on without it.
pub proof fn the_directory_goes_first<E>(
    w: World<E>,
    ticket: Ticket<Seq<char>>,
    branch: Seq<char>,
)
    ensures
        ({
            let look = Deed::Asks(AskView::PathExists(ticket.path));
            let (deeds, result) = course(w, Removal { ticket, stage: Stage::RecheckPath(branch) });
            let rest = course(w, Removal { ticket, stage: Stage::Prune(branch) });
            if !(w.exists)(ticket.path) {
                deeds == seq![look] + rest.0 && result == rest.1
            } else {
                let gone = seq![look, Deed::Asks(AskView::RemoveDirectory(ticket.path))];
                match (w.directory_removed)(ticket.path) {
                    Ok(_) => deeds == gone + rest.0 && result == rest.1,
                    Err(e) => deeds == gone && result == Err::<(), _>(
                        CommandError::<Seq<char>, E>::DirectoryNotRemoved(e),
                    ),
                }
            }
        }),
{
    reveal_with_fuel(course, 3);
    let look = Deed::Asks(AskView::PathExists(ticket.path));
    let (deeds, result) = course(w, Removal { ticket, stage: Stage::RecheckPath(branch) });
    let rest = course(w, Removal { ticket, stage: Stage::Prune(branch) });
    if !(w.exists)(ticket.path) {
        assert(deeds =~= seq![look] + rest.0);
    } else {
        let gone = seq![look, Deed::Asks(AskView::RemoveDirectory(ticket.path))];
        if (w.directory_removed)(ticket.path) is Ok {
            assert(deeds =~= gone + rest.0);
        } else {
            assert(deeds =~= gone);
        }
    }
}

/// Then git's record of the worktree goes, under exactly the file name of its path where
/// that is text, whatever its length, and under the given branch only where there is
/// none. Where it cannot be removed, that is the end. Then the stored origin goes, and a
/// failure of that is only warned about. A branch that is to be preserved is left alone
/// then; any other is deleted next.
pub proof fn the_record_goes_next<E>(
    w: World<E>,
    ticket: Ticket<Seq<char>>,
    branch: Seq<char>,
    name: Seq<char>,
)
    requires
        match paths::path_file_name(ticket.path) {
            Some(file_name) => name == file_name,
            None => name == ticket.branch,
        },
    ensures
        ({
            let prune = seq![Deed::Asks(AskView::PruneWorktree(name))];
            let (deeds, result) = course(w, Removal { ticket, stage: Stage::Prune(branch) });
            match (w.pruned)(name) {
                Err(e) => deeds == prune && result == Err::<(), _>(
                    CommandError::<Seq<char>, E>::NotPruned(e),
                ),
                Ok(_) => {
                    let origin = prune.push(
                        Deed::Asks(AskView::RemoveOrigin { repo: ticket.repo, branch }),
                    );
                    let warned = match (w.origin_removed)(ticket.repo, branch) {
                        Ok(_) => origin,
                        Err(reason) => origin.push(
                            Deed::Says(
                                Line::Stdout(
                                    "⚠ Warning: Failed to clean up origin information: "@
                                        + reason,
                                ),
                            ),
                        ),
                    };
                    if ticket.preserve_branch {
                        &&& result is Ok
                        &&& deeds == warned.push(
                            Deed::Says(
                                Line::Stdout("Branch '"@ + branch + "' preserved (not deleted)"@),
                            ),
                        ).push(Deed::Says(Line::Stdout("✓ Worktree removed successfully!"@)))
                    } else {
                        let rest = course(
                            w,
                            Removal { ticket, stage: Stage::DeleteBranch(branch) },
                        );
                        &&& result == rest.1
                        &&& deeds == warned.push(
                            Deed::Says(Line::Stdout("Deleting branch: "@ + branch)),
                        ) + rest.0
                    }
                },
            }
        }),
{
    reveal_with_fuel(course, 3);
    let prune = seq![Deed::Asks(AskView::PruneWorktree(name))];
    let (deeds, result) = course(w, Removal { ticket, stage: Stage::Prune(branch) });
    if (w.pruned)(name) is Err {
        assert(deeds =~= prune);
    } else {
        let origin = prune.push(Deed::Asks(AskView::RemoveOrigin { repo: ticket.repo, branch }));
        let removed = (w.origin_removed)(ticket.repo, branch);
        let said = saying(removal::warning("clean up origin information"@, removed));
        let warned = match removed {
            Ok(_) => origin,
            Err(reason) => origin.push(
                Deed::Says(
                    Line::Stdout("⚠ Warning: Failed to clean up origin information: "@ + reason),
                ),
            ),
        };
        if removed is Err {
            lemma_warning(removed->Err_0);
        }
        assert(origin + said =~= warned);
        if ticket.preserve_branch {
            assert(deeds =~= warned.push(
                Deed::Says(Line::Stdout("Branch '"@ + branch + "' preserved (not deleted)"@)),
            ).push(Deed::Says(Line::Stdout("✓ Worktree removed successfully!"@))));
        } else {
            let rest = course(w, Removal { ticket, stage: Stage::DeleteBranch(branch) });
            assert(deeds =~= warned.push(Deed::Says(Line::Stdout("Deleting branch: "@ + branch)))
                + rest.0);
        }
    }
}

/// Last the branch goes, by exactly the name that was made out. Where it cannot be
/// deleted, the command fails with why, and what is known of the branch stays. Where it
/// is deleted, its mark and its mapping go too, and a failure of that is only warned
/// about.
pub proof fn the_branch_goes_last<E>(w: World<E>, ticket: Ticket<Seq<char>>, branch: Seq<char>)
    ensures
        ({
            let repo = ticket.repo;
            let farewell = Deed::Says(Line::Stdout("✓ Worktree removed successfully!"@));
            let delete = seq![Deed::Asks(AskView::DeleteBranch(branch))];
            let (deeds, result) = course(w, Removal { ticket, stage: Stage::DeleteBranch(branch) });
            match (w.branch_deleted)(branch) {
                Err(reason) => {
                    &&& result == Err::<(), _>(
                        CommandError::<Seq<char>, E>::BranchNotDeleted(reason),
                    )
                    &&& deeds == delete.push(
                        Deed::Says(
                            Line::Stdout("⚠ Warning: Failed to delete branch: "@ + reason),
                        ),
                    ).push(farewell)
                },
                Ok(_) => {
                    let forgotten = delete.push(
                        Deed::Says(Line::Stdout("✓ Branch deleted successfully"@)),
                    ).push(Deed::Asks(AskView::UnmarkBranch { repo, branch })).push(
                        Deed::Asks(AskView::RemoveMapping { repo, branch }),
                    );
                    &&& result is Ok
                    &&& match (w.mapping_removed)(repo, branch) {
                        Ok(_) => deeds == forgotten.push(farewell),
                        Err(reason) => deeds == forgotten.push(
                            Deed::Says(
                                Line::Stdout(
                                    "⚠ Warning: Failed to remove branch mapping: "@ + reason,
                                ),
                            ),
                        ).push(farewell),
                    }
                },
            }
        }),
{
    reveal_with_fuel(course, 4);
    let repo = ticket.repo;
    let farewell = Deed::Says(Line::Stdout("✓ Worktree removed successfully!"@));
    let delete = seq![Deed::Asks(AskView::DeleteBranch(branch))];
    let (deeds, result) = course(w, Removal { ticket, stage: Stage::DeleteBranch(branch) });
    match (w.branch_deleted)(branch) {
        Err(reason) => {
            lemma_warning(reason);
            assert(deeds =~= delete.push(
                Deed::Says(Line::Stdout("⚠ Warning: Failed to delete branch: "@ + reason)),
            ).push(farewell));
        },
        Ok(_) => {
            let forgotten = delete.push(
                Deed::Says(Line::Stdout("✓ Branch deleted successfully"@)),
            ).push(Deed::Asks(AskView::UnmarkBranch { repo, branch })).push(
                Deed::Asks(AskView::RemoveMapping { repo, branch }),
            );
            match (w.mapping_removed)(repo, branch) {
                Ok(_) => {
                    assert(deeds =~= forgotten.push(farewell));
                },
                Err(reason) => {
                    lemma_warning(reason);
                    assert(deeds =~= forgotten.push(
                        Deed::Says(
                            Line::Stdout(
                                "⚠ Warning: Failed to remove branch mapping: "@ + reason,
                            ),
                        ),
                    ).push(farewell));
                },
            }
        },
    }
}

// ---------------------------------------------------------------------------
// Finding out what a target means
// ---------------------------------------------------------------------------

/// An absolute path means the directory that it leads to: the file name of what is below
/// the storage's directory, by the branch on record for it or else by that name. It stays
/// the path itself. A path that leads to no directory in the storage means nothing.
pub proof fn a_path_means_its_directory<E>(w: World<E>, target: Seq<char>, repo: Seq<char>)
    requires
        paths::path_is_absolute(paths::path_from_text(target)),
    ensures
        ({
            let path = paths::path_from_text(target);
            let below = paths::path_below(path, (w.storage_dir)(repo));
            let meaning = laws::run_resolver(w, Resolver::start(target, repo));
            let invalid = Err::<Resolved<Seq<char>>, _>(
                CommandError::<Seq<char>, E>::InvalidPath(target),
            );
            &&& below is None ==> meaning == invalid
            &&& below is Some && paths::path_file_name(below->0) is None ==> meaning == invalid
            &&& below is Some && paths::path_file_name(below->0) is Some ==> {
                let name = paths::path_file_name(below->0)->0;
                match (w.original)(repo, name) {
                    Ok(Some(branch)) => meaning matches Ok(found) && found.path == path
                        && found.branch == branch,
                    Ok(None) => meaning matches Ok(found) && found.path == path && found.branch
                        == name,
                    Err(e) => meaning matches Err(error) && error == CommandError::<
                        Seq<char>,
                        E,
                    >::Failed(e),
                }
            }
        }),
{
    reveal_with_fuel(laws::run_resolver, 3);
}

/// A name with one of the characters `/ \ : * ? " < > |` is a branch: it means the
/// worktree that the storage keeps for it, which has to be there.
pub proof fn a_special_name_is_a_branch<E>(w: World<E>, target: Seq<char>, repo: Seq<char>, at: int)
    requires
        !paths::path_is_absolute(paths::path_from_text(target)),
        0 <= at < target.len(),
        "/\\:*?\"<>|"@.contains(target[at]),
    ensures
        ({
            let path = (w.path_of)(repo, target);
            match laws::run_resolver(w, Resolver::start(target, repo)) {
                Ok(found) => (w.exists)(path) && found.path == path && found.branch == target,
                Err(error) => !(w.exists)(path) && error == CommandError::<
                    Seq<char>,
                    E,
                >::NoWorktreeForBranch(target),
            }
        }),
{
    text::special_characters_are_these(target);
    assert(text::has_special(target));
    reveal_with_fuel(laws::run_resolver, 2);
}

/// A plain name, which holds none of those characters, means the branch on record for it,
/// in the directory of that name if that is there, else in the one of that branch if that
/// is. With nothing on record it is a branch itself, if git knows it as one and its
/// directory is there.
pub proof fn a_plain_name_means_what_is_on_record<E>(
    w: World<E>,
    target: Seq<char>,
    repo: Seq<char>,
)
    requires
        !paths::path_is_absolute(paths::path_from_text(target)),
        forall|i: int| 0 <= i < target.len() ==> !"/\\:*?\"<>|"@.contains(#[trigger] target[i]),
    ensures
        ({
            let path = (w.path_of)(repo, target);
            let meaning = laws::run_resolver(w, Resolver::start(target, repo));
            match (w.original)(repo, target) {
                Err(e) => meaning matches Err(error) && error == CommandError::<
                    Seq<char>,
                    E,
                >::Failed(e),
                Ok(Some(branch)) => {
                    let elsewhere = (w.path_of)(repo, branch);
                    &&& (w.exists)(path) ==> (meaning matches Ok(found) && found.path == path
                        && found.branch == branch)
                    &&& !(w.exists)(path) && (w.exists)(elsewhere) ==> (meaning matches Ok(found)
                        && found.path == elsewhere && found.branch == branch)
                    &&& !(w.exists)(path) && !(w.exists)(elsewhere) ==> (meaning matches Err(error)
                        && error == CommandError::<Seq<char>, E>::NoMatch(target))
                },
                Ok(None) => {
                    &&& !(w.exists)(path) ==> (meaning matches Err(error) && error
                        == CommandError::<Seq<char>, E>::NoMatch(target))
                    &&& (w.exists)(path) ==> match w.local_branches {
                        Err(e) => meaning matches Err(error) && error == CommandError::<
                            Seq<char>,
                            E,
                        >::Failed(e),
                        Ok(known) => if known is Some && exists|i: int|
                            0 <= i < known->0.len() && #[trigger] known->0[i] == target {
                            meaning matches Ok(found) && found.path == path && found.branch
                                == target
                        } else {
                            meaning matches Err(error) && error == CommandError::<
                                Seq<char>,
                                E,
                            >::UnknownBranch(target)
                        },
                    }
                },
            }
        }),
{
    text::special_characters_are_these(target);
    assert(!text::has_special(target));
    reveal_with_fuel(laws::run_resolver, 4);
}

/// What is made of a plain name goes by what was seen when it was looked at, also where
/// that has changed since.
pub proof fn a_plain_name_goes_by_what_was_seen<E>(
    w: World<E>,
    target: Seq<char>,
    repo: Seq<char>,
    original: Seq<char>,
    path: PathBuf,
)
    ensures
        match laws::run_resolver(w, Resolver::LocateOriginal { repo, target, original }) {
            Ok(found) => (w.exists)((w.path_of)(repo, original)) && found.path == (w.path_of)(
                repo,
                original,
            ) && found.branch == original,
            Err(error) => !(w.exists)((w.path_of)(repo, original)) && error == CommandError::<
                Seq<char>,
                E,
            >::NoMatch(target),
        },
        (w.original)(repo, target) == Ok::<Option<Seq<char>>, E>(Some(original)) ==> (
        laws::run_resolver(w, Resolver::BranchOfName { repo, target, path }) matches Ok(found)
            && found.path == path && found.branch == original),
        laws::run_resolver(w, Resolver::IsBranch { target, path }) matches Ok(found) ==> found.path
            == path && found.branch == target,
{
    reveal_with_fuel(laws::run_resolver, 2);
}

// ---------------------------------------------------------------------------
// Jumping
// ---------------------------------------------------------------------------

/// A jump fails, without a word, with what opening the storage or collecting the
/// worktrees fails with.
pub proof fn a_jump_needs_its_surroundings<E>(
    w: World<E>,
    goal: Goal<Seq<char>>,
    current_repo_only: bool,
    e: E,
)
    requires
        w.storage == Err::<(), E>(e) || (w.storage is Ok && laws::run_listing(
            w,
            ListingView::start(current_repo_only),
        ) == Err::<Seq<WorktreeView>, E>(e)),
    ensures
        ({
            let run = laws::run_jump(w, JumpView::OpenStorage { goal, current_repo_only });
            &&& run.0.len() == 0
            &&& run.1 == Err::<(), _>(CommandError::<Seq<char>, E>::Failed(e))
        }),
{
    laws::listing_is_what_is_available(w, current_repo_only);
    lemma_jump(w, goal, current_repo_only);
}

/// A jump comes to what the world makes of it, whatever it is after.
proof fn lemma_jump<E>(w: World<E>, goal: Goal<Seq<char>>, current_repo_only: bool)
    ensures
        laws::run_jump(w, JumpView::OpenStorage { goal, current_repo_only }) == w.jump(
            goal,
            current_repo_only,
        ),
{
    match goal {
        Goal::Complete => laws::jump_comes_to_its_outcome(w, None, false, true, current_repo_only),
        Goal::Choose => laws::jump_comes_to_its_outcome(w, None, true, false, current_repo_only),
        Goal::Named(target) => laws::jump_comes_to_its_outcome(
            w,
            Some(target),
            false,
            false,
            current_repo_only,
        ),
    }
}

/// A jump that is to list completions puts out the branch of every listed worktree, one
/// to a line, in the order of the listing, and nothing else; and it succeeds, unless
/// only the current repository is asked about and there is none.
pub proof fn a_jump_completes_every_branch<E>(
    w: World<E>,
    current_repo_only: bool,
    listed: Seq<WorktreeView>,
)
    requires
        w.storage is Ok,
        laws::run_listing(w, ListingView::start(current_repo_only)) == Ok::<
            Seq<WorktreeView>,
            E,
        >(listed),
    ensures
        ({
            let run = laws::run_jump(
                w,
                JumpView::OpenStorage { goal: Goal::Complete, current_repo_only },
            );
            if current_repo_only && w.current_repo == Ok::<Option<Seq<char>>, E>(None) {
                &&& run.0.len() == 0
                &&& run.1 == Err::<(), _>(CommandError::<Seq<char>, E>::NoCurrentRepo)
            } else {
                &&& run.0.len() == listed.len()
                &&& forall|i: int|
                    0 <= i < listed.len() ==> #[trigger] run.0[i] == Line::Stdout(listed[i].branch)
                &&& run.1 is Ok
            }
        }),
{
    laws::listing_is_what_is_available(w, current_repo_only);
    lemma_jump(w, Goal::Complete, current_repo_only);
}

/// A jump by choice offers every listed worktree as `repo/branch (path)`, in the order of
/// the listing, however many there are, and puts out the path that is read off what is
/// chosen, and nothing else. With nothing listed there is nothing to choose from.
pub proof fn a_jump_offers_every_worktree<E>(
    w: World<E>,
    current_repo_only: bool,
    listed: Seq<WorktreeView>,
    options: Seq<Seq<char>>,
)
    requires
        w.storage is Ok,
        laws::run_listing(w, ListingView::start(current_repo_only)) == Ok::<
            Seq<WorktreeView>,
            E,
        >(listed),
        options.len() == listed.len(),
        forall|i: int|
            0 <= i < listed.len() ==> #[trigger] options[i] == listed[i].repo + "/"@
                + listed[i].branch + " ("@ + paths::path_display(listed[i].path) + ")"@,
    ensures
        ({
            let run = laws::run_jump(
                w,
                JumpView::OpenStorage { goal: Goal::Choose, current_repo_only },
            );
            if listed.len() == 0 {
                &&& run.0.len() == 0
                &&& run.1 == Err::<(), _>(CommandError::<Seq<char>, E>::NoWorktrees)
            } else {
                match (w.choice)("Jump to worktree:"@, options) {
                    Err(e) => run.0.len() == 0 && run.1 == Err::<(), _>(
                        CommandError::<Seq<char>, E>::Failed(e),
                    ),
                    Ok(selection) => match (w.path_in)(selection) {
                        Err(e) => run.0.len() == 0 && run.1 == Err::<(), _>(
                            CommandError::<Seq<char>, E>::Failed(e),
                        ),
                        Ok(path) => run.0 == seq![Line::Stdout(paths::path_display(path))]
                            && run.1 is Ok,
                    },
                }
            }
        }),
{
    laws::listing_is_what_is_available(w, current_repo_only);
    lemma_jump(w, Goal::Choose, current_repo_only);
    if listed.len() > 0 {
        assert(worktrees::menu("Jump to worktree:"@, listed)->0.options =~= options);
    }
}

/// A jump by name puts out the path of the worktree that the name means among the listed
/// ones, and nothing else. Where it may mean several, they are all named on the standard
/// error, and the jump fails; where it means none, the jump fails without a word.
pub proof fn a_jump_leads_to_what_is_meant<E>(
    w: World<E>,
    current_repo_only: bool,
    listed: Seq<WorktreeView>,
    target: Seq<char>,
)
    requires
        w.storage is Ok,
        laws::run_listing(w, ListingView::start(current_repo_only)) == Ok::<
            Seq<WorktreeView>,
            E,
        >(listed),
    ensures
        ({
            let run = laws::run_jump(
                w,
                JumpView::OpenStorage { goal: Goal::Named(target), current_repo_only },
            );
            match worktrees::lookup(listed, target) {
                Lookup::Found(path) => run.0 == seq![Line::Stdout(paths::path_display(path))]
                    && run.1 is Ok,
                Lookup::Missing => run.0.len() == 0 && run.1 == Err::<(), _>(
                    CommandError::<Seq<char>, E>::NoMatch(target),
                ),
                Lookup::Ambiguous(matching) => {
                    &&& run.0.len() == matching.len() + 1
                    &&& run.0[0] == Line::Stderr(
                        "Multiple worktrees match '"@ + target + "'. Please be more specific:"@,
                    )
                    &&& forall|i: int|
                        0 <= i < matching.len() ==> run.0[i + 1] == Line::Stderr(
                            "  "@ + (#[trigger] matching[i]).repo + "/"@ + matching[i].branch,
                        )
                    &&& run.1 == Err::<(), _>(CommandError::<Seq<char>, E>::Ambiguous)
                },
            }
        }),
{
    laws::listing_is_what_is_available(w, current_repo_only);
    lemma_jump(w, Goal::Named(target), current_repo_only);
}

/// Where no listed branch is the name, and the name occurs in the branch of exactly one
/// listed worktree, a jump by that name leads there, whatever the name is made of.
pub proof fn a_jump_leads_to_the_only_match<E>(
    w: World<E>,
    current_repo_only: bool,
    listed: Seq<WorktreeView>,
    target: Seq<char>,
    only: int,
    before: Seq<char>,
    behind: Seq<char>,
)
    requires
        w.storage is Ok,
        laws::run_listing(w, ListingView::start(current_repo_only)) == Ok::<
            Seq<WorktreeView>,
            E,
        >(listed),
        0 <= only < listed.len(),
        listed[only].branch == before + target + behind,
        forall|i: int| 0 <= i < listed.len() ==> (#[trigger] listed[i]).branch != target,
        forall|i: int, a: Seq<char>, b: Seq<char>|
            0 <= i < listed.len() && i != only ==> (#[trigger] listed[i]).branch != #[trigger] (a
                + target + b),
    ensures
        ({
            let run = laws::run_jump(
                w,
                JumpView::OpenStorage { goal: Goal::Named(target), current_repo_only },
            );
            &&& run.0 == seq![Line::Stdout(paths::path_display(listed[only].path))]
            &&& run.1 is Ok
        }),
{
    text::occurring_is_standing_between(listed[only].branch, target);
    assert forall|i: int| 0 <= i < listed.len() && i != only implies !text::has_substring(
        (#[trigger] listed[i]).branch,
        target,
    ) by {
        text::occurring_is_standing_between(listed[i].branch, target);
    }
    worktrees::a_single_match_is_meant(listed, target, only);
    a_jump_leads_to_what_is_meant(w, current_repo_only, listed, target);
}

// ---------------------------------------------------------------------------
// The remove command
// ---------------------------------------------------------------------------

/// A remove command comes to what the world makes of it, whatever it is after.
proof fn lemma_remove<E>(
    w: World<E>,
    goal: Goal<Seq<char>>,
    preserve_branch: bool,
    current_repo_only: bool,
)
    ensures
        laws::run_remove(w, RemoveView::OpenStorage { goal, preserve_branch, current_repo_only })
            == w.remove(goal, preserve_branch, current_repo_only),
{
    let keep = preserve_branch;
    let only = current_repo_only;
    match goal {
        Goal::Complete => laws::remove_comes_to_its_outcome(w, None, keep, false, true, only),
        Goal::Choose => laws::remove_comes_to_its_outcome(w, None, keep, true, false, only),
        Goal::Named(target) => laws::remove_comes_to_its_outcome(
            w,
            Some(target),
            keep,
            false,
            false,
            only,
        ),
    }
}

/// A remove command fails, without a word and without a change, with what opening the
/// storage fails with, and, unless it is to list completions, with what opening the
/// current repository fails with.
pub proof fn a_remove_command_needs_its_surroundings<E>(
    w: World<E>,
    goal: Goal<Seq<char>>,
    preserve_branch: bool,
    current_repo_only: bool,
    e: E,
)
    requires
        w.storage == Err::<(), E>(e) || (w.storage is Ok && !(goal is Complete) && w.opened_repo
            == Err::<Seq<char>, E>(e)),
    ensures
        ({
            let run = laws::run_remove(
                w,
                RemoveView::OpenStorage { goal, preserve_branch, current_repo_only },
            );
            &&& run.changes.len() == 0
            &&& run.lines.len() == 0
            &&& run.result == Err::<(), _>(CommandError::<Seq<char>, E>::Failed(e))
        }),
{
    lemma_remove(w, goal, preserve_branch, current_repo_only);
}

/// A remove command that is to list completions changes nothing. It puts out the branch
/// of every listed worktree, one to a line, in the order of the listing, and nothing
/// else; or it fails with what the listing fails with.
pub proof fn a_remove_command_completes_every_branch<E>(
    w: World<E>,
    preserve_branch: bool,
    current_repo_only: bool,
)
    requires
        w.storage is Ok,
    ensures
        ({
            let run = laws::run_remove(
                w,
                RemoveView::OpenStorage {
                    goal: Goal::Complete,
                    preserve_branch,
                    current_repo_only,
                },
            );
            &&& run.changes.len() == 0
            &&& match laws::run_listing(w, ListingView::start(current_repo_only)) {
                Ok(listed) => {
                    &&& run.lines.len() == listed.len()
                    &&& forall|i: int|
                        0 <= i < listed.len() ==> #[trigger] run.lines[i] == Line::Stdout(
                            listed[i].branch,
                        )
                    &&& run.result is Ok
                },
                Err(e) => run.lines.len() == 0 && run.result == Err::<(), _>(
                    CommandError::<Seq<char>, E>::Failed(e),
                ),
            }
        }),
{
    laws::listing_is_what_is_available(w, current_repo_only);
    lemma_remove(w, Goal::Complete, preserve_branch, current_repo_only);
}

/// A remove command by name removes the worktree that the name means in the current
/// repository, with the branch that it means; where it means nothing, the command fails
/// with why, without a word and without a change.
pub proof fn what_is_named_is_removed<E>(
    w: World<E>,
    repo: Seq<char>,
    target: Seq<char>,
    preserve_branch: bool,
    current_repo_only: bool,
)
    requires
        w.storage is Ok,
        w.opened_repo == Ok::<Seq<char>, E>(repo),
    ensures
        ({
            let run = laws::run_remove(
                w,
                RemoveView::OpenStorage {
                    goal: Goal::Named(target),
                    preserve_branch,
                    current_repo_only,
                },
            );
            match laws::run_resolver(w, Resolver::start(target, repo)) {
                Ok(found) => run == laws::run_remove(
                    w,
                    RemoveView::Remove(
                        Removal {
                            ticket: Ticket {
                                repo,
                                path: found.path,
                                branch: found.branch,
                                preserve_branch,
                            },
                            stage: Stage::CheckPath,
                        },
                    ),
                ),
                Err(error) => {
                    &&& run.changes.len() == 0
                    &&& run.lines.len() == 0
                    &&& run.result == Err::<(), _>(error)
                },
            }
        }),
{
    lemma_remove(w, Goal::Named(target), preserve_branch, current_repo_only);
    laws::resolving_gives_the_meaning(w, target, repo);
    if laws::run_resolver(w, Resolver::start(target, repo)) is Ok {
        let found = laws::run_resolver(w, Resolver::start(target, repo))->Ok_0;
        laws::removal_comes_to_its_outcome(
            w,
            Ticket { repo, path: found.path, branch: found.branch, preserve_branch },
        );
    }
}

/// A remove command by choice offers every listed worktree as `repo/branch (path)`, in
/// the order of the listing, however many there are, and removes the worktree at the path
/// that is read off what is chosen, with the branch that is read off it. Until then
/// nothing is said and nothing is changed.
pub proof fn what_is_chosen_is_removed<E>(
    w: World<E>,
    repo: Seq<char>,
    preserve_branch: bool,
    current_repo_only: bool,
    listed: Seq<WorktreeView>,
    options: Seq<Seq<char>>,
)
    requires
        w.storage is Ok,
        w.opened_repo == Ok::<Seq<char>, E>(repo),
        laws::run_listing(w, ListingView::start(current_repo_only)) == Ok::<
            Seq<WorktreeView>,
            E,
        >(listed),
        options.len() == listed.len(),
        forall|i: int|
            0 <= i < listed.len() ==> #[trigger] options[i] == listed[i].repo + "/"@
                + listed[i].branch + " ("@ + paths::path_display(listed[i].path) + ")"@,
    ensures
        ({
            let run = laws::run_remove(
                w,
                RemoveView::OpenStorage { goal: Goal::Choose, preserve_branch, current_repo_only },
            );
            let choice = (w.choice)("Select worktree to remove:"@, options);
            if listed.len() > 0 && choice is Ok && (w.path_in)(choice->Ok_0) is Ok && (w.branch_in)(
                choice->Ok_0,
            ) is Ok {
                run == laws::run_remove(
                    w,
                    RemoveView::Remove(
                        Removal {
                            ticket: Ticket {
                                repo,
                                path: (w.path_in)(choice->Ok_0)->Ok_0,
                                branch: (w.branch_in)(choice->Ok_0)->Ok_0,
                                preserve_branch,
                            },
                            stage: Stage::CheckPath,
                        },
                    ),
                )
            } else {
                &&& run.changes.len() == 0
                &&& run.lines.len() == 0
                &&& run.result matches Err(error) && if listed.len() == 0 {
                    error is NoWorktrees
                } else if choice is Err {
                    error == CommandError::<Seq<char>, E>::Failed(choice->Err_0)
                } else if (w.path_in)(choice->Ok_0) is Err {
                    error == CommandError::<Seq<char>, E>::Failed(
                        (w.path_in)(choice->Ok_0)->Err_0,
                    )
                } else {
                    error == CommandError::<Seq<char>, E>::Failed(
                        (w.branch_in)(choice->Ok_0)->Err_0,
                    )
                }
            }
        }),
{
    lemma_remove(w, Goal::Choose, preserve_branch, current_repo_only);
    laws::listing_is_what_is_available(w, current_repo_only);
    if listed.len() > 0 {
        assert(worktrees::menu("Select worktree to remove:"@, listed)->0.options =~= options);
        let choice = (w.choice)("Select worktree to remove:"@, options);
        if choice is Ok && (w.path_in)(choice->Ok_0) is Ok && (w.branch_in)(choice->Ok_0) is Ok {
            laws::removal_comes_to_its_outcome(
                w,
                Ticket {
                    repo,
                    path: (w.path_in)(choice->Ok_0)->Ok_0,
                    branch: (w.branch_in)(choice->Ok_0)->Ok_0,
                    preserve_branch,
                },
            );
        }
    }
}

/// A remove command by choice fails with what the listing fails with, without a word and
/// without a change.
pub proof fn a_choice_needs_a_listing<E>(
    w: World<E>,
    preserve_branch: bool,
    current_repo_only: bool,
    e: E,
)
    requires
        w.storage is Ok,
        w.opened_repo is Ok,
        laws::run_listing(w, ListingView::start(current_repo_only)) == Err::<
            Seq<WorktreeView>,
            E,
        >(e),
    ensures
        ({
            let run = laws::run_remove(
                w,
                RemoveView::OpenStorage { goal: Goal::Choose, preserve_branch, current_repo_only },
            );
            &&& run.changes.len() == 0
            &&& run.lines.len() == 0
            &&& run.result == Err::<(), _>(CommandError::<Seq<char>, E>::Failed(e))
        }),
{
    lemma_remove(w, Goal::Choose, preserve_branch, current_repo_only);
    laws::listing_is_what_is_available(w, current_repo_only);
}

// ---------------------------------------------------------------------------
// Replies
// ---------------------------------------------------------------------------

/// Only a reply to what was asked can move a command: after any other it stands where it
/// stood and has said nothing.
pub proof fn only_what_was_asked_for_counts<E>(
    jump: JumpView,
    remove: RemoveView,
    reply: AnswerView<E>,
    ask: AskView,
)
    requires
        ask == jump.request() || ask == remove.request(),
        !(ask is OpenStorage && reply is StorageOpened),
        !(ask is OpenCurrentRepo && reply is RepoOpened),
        !(ask is CurrentRepoName && reply is CurrentRepo),
        !(ask is ListRepoWorktrees && reply is RepoWorktrees),
        !(ask is ListAllWorktrees && reply is AllWorktrees),
        !(ask is LocateWorktree && reply is Located),
        !(ask is OriginalBranch && reply is OriginalBranch),
        !(ask is ModifiedTime && reply is Modified),
        !(ask is Select && reply is Selected),
        !(ask is ExtractPath && reply is ExtractedPath),
        !(ask is ExtractBranch && reply is ExtractedBranch),
        !(ask is RepoStorageDir && reply is StorageDir),
        !(ask is LocalBranches && reply is LocalBranches),
        !(ask is PathExists && reply is PathExists),
        !(ask is HeadBranch && reply is HeadBranch),
        !(ask is RemoveDirectory && reply is DirectoryRemoved),
        !(ask is PruneWorktree && reply is WorktreePruned),
        !(ask is RemoveOrigin && reply is OriginRemoved),
        !(ask is DeleteBranch && reply is BranchDeleted),
        !(ask is UnmarkBranch && reply is BranchUnmarked),
        !(ask is RemoveMapping && reply is MappingRemoved),
    ensures
        ask == jump.request() ==> (jump.after(reply) matches Step::Continue { lines, session }
            && lines.len() == 0 && session == jump),
        ask == remove.request() ==> (remove.after(reply) matches Step::Continue { lines, session }
            && lines.len() == 0 && session == remove),
{
}

} // verus!
