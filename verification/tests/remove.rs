use std::path::PathBuf;

use worktree_commands::protocol::{
    Answer, Ask, CommandError, Line, Outcome, Progress, Reply, Request, Step,
};
use worktree_commands::remove::{remove_worktree, Remove};
use worktree_commands::resolve::{resolve_target, Resolution, Resolved};

/// A repository `repo` whose worktrees are under `/store/repo`.
struct Surroundings {
    /// Directory names that are there.
    present: Vec<&'static str>,
    /// Directory names with the branches on record for them.
    records: Vec<(&'static str, &'static str)>,
    unreadable: bool,
    branches: Result<Option<Vec<&'static str>>, String>,
    head: Result<&'static str, String>,
    opened: Result<&'static str, String>,
    directory: Result<(), String>,
    pruned: Result<(), String>,
    origin: Result<(), String>,
    deleted: Result<(), String>,
    mapping: Result<(), String>,
    /// Whether the directory vanishes once the branch has been made out.
    vanishes: bool,
    looked: usize,
    /// Whether the current directory is in the repository.
    in_repo: bool,
}

fn surroundings() -> Surroundings {
    Surroundings {
        present: vec!["feature-x", "main"],
        records: vec![("feature-x", "feature/x")],
        unreadable: false,
        branches: Ok(Some(vec!["main", "feature/x"])),
        head: Ok("feature/x"),
        opened: Ok("repo"),
        directory: Ok(()),
        pruned: Ok(()),
        origin: Ok(()),
        deleted: Ok(()),
        mapping: Ok(()),
        vanishes: false,
        looked: 0,
        in_repo: true,
    }
}

fn path_of(name: &str) -> PathBuf {
    PathBuf::from("/store/repo").join(name.replace('/', "-"))
}

impl Surroundings {
    fn is_there(&self, path: &PathBuf) -> bool {
        self.present.iter().any(|name| path_of(name) == *path)
    }

    fn reply(&mut self, ask: &Ask) -> Answer<String> {
        match ask {
            Request::OpenStorage => Reply::StorageOpened(Ok(())),
            Request::OpenCurrentRepo => {
                Reply::RepoOpened(self.opened.clone().map(|name| name.to_string()))
            }
            Request::CurrentRepoName => {
                Reply::CurrentRepo(Ok(self.in_repo.then_some("repo".to_string())))
            }
            Request::ListRepoWorktrees(_) => {
                Reply::RepoWorktrees(Ok(self.present.iter().map(|n| n.to_string()).collect()))
            }
            Request::ListAllWorktrees => Reply::AllWorktrees(Ok(vec![(
                "repo".to_string(),
                self.present.iter().map(|n| n.to_string()).collect(),
            )])),
            Request::LocateWorktree { name, .. } => {
                let path = path_of(name);
                let exists = self.is_there(&path);
                Reply::Located { path, exists }
            }
            Request::OriginalBranch { name, .. } => Reply::OriginalBranch(if self.unreadable {
                Err("unreadable".to_string())
            } else {
                Ok(self.records.iter().find(|r| r.0 == name).map(|r| r.1.to_string()))
            }),
            Request::ModifiedTime(_) => Reply::Modified(None),
            Request::Select { options, .. } => Reply::Selected(Ok(options[0].clone())),
            Request::ExtractPath(_) => Reply::ExtractedPath(Ok(path_of("feature-x"))),
            Request::ExtractBranch(_) => Reply::ExtractedBranch(Ok("feature/x".to_string())),
            Request::RepoStorageDir(repo) => {
                Reply::StorageDir(PathBuf::from("/store").join(repo))
            }
            Request::LocalBranches => Reply::LocalBranches(
                self.branches
                    .clone()
                    .map(|o| o.map(|names| names.iter().map(|n| n.to_string()).collect())),
            ),
            Request::PathExists(path) => {
                self.looked += 1;
                Reply::PathExists(self.is_there(path) && !(self.vanishes && self.looked > 1))
            }
            Request::HeadBranch(_) => Reply::HeadBranch(self.head.clone().map(|b| b.to_string())),
            Request::RemoveDirectory(_) => Reply::DirectoryRemoved(self.directory.clone()),
            Request::PruneWorktree(_) => Reply::WorktreePruned(self.pruned.clone()),
            Request::RemoveOrigin { .. } => Reply::OriginRemoved(self.origin.clone()),
            Request::DeleteBranch(_) => Reply::BranchDeleted(self.deleted.clone()),
            Request::UnmarkBranch { .. } => Reply::BranchUnmarked,
            Request::RemoveMapping { .. } => Reply::MappingRemoved(self.mapping.clone()),
        }
    }

    fn resolve(&mut self, target: &str) -> Resolution<String> {
        let mut resolver = resolve_target(target, "repo");
        loop {
            let reply = self.reply(&resolver.request());
            match resolver.resume(reply) {
                Progress::Waiting(next) => resolver = next,
                Progress::Finished(result) => return result,
            }
        }
    }

    fn run(&mut self, start: Remove) -> (Vec<Ask>, Vec<String>, Outcome<String>) {
        let mut changes = Vec::new();
        let mut shown = Vec::new();
        let mut session = start;
        loop {
            let ask = session.request();
            let reply = self.reply(&ask);
            if is_change(&ask) {
                changes.push(ask);
            }
            let (lines, end) = match session.resume(reply) {
                Step::Continue { lines, session } => (lines, Ok(session)),
                Step::Done { lines, result } => (lines, Err(result)),
            };
            for line in lines {
                match line {
                    Line::Stdout(text) => shown.push(text),
                    Line::Stderr(text) => panic!("{}", text),
                }
            }
            match end {
                Ok(next) => session = next,
                Err(result) => return (changes, shown, result),
            }
        }
    }
}

fn is_change(ask: &Ask) -> bool {
    matches!(
        ask,
        Request::RemoveDirectory(_)
            | Request::PruneWorktree(_)
            | Request::RemoveOrigin { .. }
            | Request::DeleteBranch(_)
            | Request::UnmarkBranch { .. }
            | Request::RemoveMapping { .. }
    )
}

fn resolved(path: &str, branch: &str) -> Resolution<String> {
    Ok(Resolved { path: PathBuf::from(path), branch: branch.to_string() })
}

fn by_name(target: &str) -> Remove {
    remove_worktree(Some(target), false, false, false, false)
}

/// The changes of a removal of `feature-x` down to its origin.
fn down_to_origin(branch: &str) -> Vec<Ask> {
    vec![
        Request::RemoveDirectory(path_of("feature-x")),
        Request::PruneWorktree("feature-x".to_string()),
        Request::RemoveOrigin { repo: "repo".to_string(), branch: branch.to_string() },
    ]
}

/// All changes of a removal of `feature-x`.
fn all_changes(branch: &str) -> Vec<Ask> {
    let mut changes = down_to_origin(branch);
    changes.push(Request::DeleteBranch(branch.to_string()));
    changes.push(Request::UnmarkBranch { repo: "repo".to_string(), branch: branch.to_string() });
    changes.push(Request::RemoveMapping { repo: "repo".to_string(), branch: branch.to_string() });
    changes
}

// Resolving a target.

#[test]
fn an_absolute_path_in_the_storage_means_the_branch_on_record() {
    assert_eq!(
        surroundings().resolve("/store/repo/feature-x"),
        resolved("/store/repo/feature-x", "feature/x")
    );
}

#[test]
fn an_absolute_path_in_the_storage_means_its_directory_name_without_a_record() {
    assert_eq!(surroundings().resolve("/store/repo/main"), resolved("/store/repo/main", "main"));
    assert_eq!(
        surroundings().resolve("/store/repo/deep/er"),
        resolved("/store/repo/deep/er", "er")
    );
}

#[test]
fn an_absolute_path_elsewhere_is_invalid() {
    for target in ["/elsewhere/feature-x", "/store/repo", "/store/repository/x", "/store/repo/.."] {
        assert_eq!(
            surroundings().resolve(target),
            Err(CommandError::InvalidPath(target.to_string()))
        );
    }
}

#[test]
fn an_absolute_path_fails_where_the_record_cannot_be_read() {
    let mut s = surroundings();
    s.unreadable = true;
    assert_eq!(
        s.resolve("/store/repo/main"),
        Err(CommandError::Failed("unreadable".to_string()))
    );
}

#[test]
fn a_name_with_special_characters_is_a_branch() {
    assert_eq!(
        surroundings().resolve("feature/x"),
        resolved("/store/repo/feature-x", "feature/x")
    );
    assert_eq!(
        surroundings().resolve("feature/y"),
        Err(CommandError::NoWorktreeForBranch("feature/y".to_string()))
    );
}

#[test]
fn a_directory_name_on_record_means_its_branch() {
    assert_eq!(
        surroundings().resolve("feature-x"),
        resolved("/store/repo/feature-x", "feature/x")
    );
}

#[test]
fn a_plain_name_is_a_branch_where_git_knows_it() {
    assert_eq!(surroundings().resolve("main"), resolved("/store/repo/main", "main"));
}

#[test]
fn a_plain_name_that_git_does_not_know_is_not_guessed_at() {
    for branches in [Ok(Some(vec!["mainline"])), Ok(None)] {
        let mut s = surroundings();
        s.branches = branches;
        assert_eq!(s.resolve("main"), Err(CommandError::UnknownBranch("main".to_string())));
    }
    let mut s = surroundings();
    s.branches = Err("no directory".to_string());
    assert_eq!(s.resolve("main"), Err(CommandError::Failed("no directory".to_string())));
}

#[test]
fn a_plain_name_may_be_on_record_for_a_worktree_elsewhere() {
    let mut s = surroundings();
    s.records.push(("alias", "feature/x"));
    assert_eq!(s.resolve("alias"), resolved("/store/repo/feature-x", "feature/x"));
    s.records.push(("stale", "feature/gone"));
    assert_eq!(s.resolve("stale"), Err(CommandError::NoMatch("stale".to_string())));
}

#[test]
fn an_unknown_plain_name_means_nothing() {
    assert_eq!(surroundings().resolve("other"), Err(CommandError::NoMatch("other".to_string())));
    let mut s = surroundings();
    s.unreadable = true;
    assert_eq!(s.resolve("other"), Err(CommandError::Failed("unreadable".to_string())));
}

// Removing.

#[test]
fn a_worktree_goes_with_its_branch() {
    let (changes, shown, result) = surroundings().run(by_name("feature-x"));
    assert_eq!(changes, all_changes("feature/x"));
    assert_eq!(
        shown,
        vec![
            "Removing worktree: /store/repo/feature-x",
            "Branch: feature/x",
            "Deleting branch: feature/x",
            "✓ Branch deleted successfully",
            "✓ Worktree removed successfully!",
        ]
    );
    assert_eq!(result, Ok(()));
}

#[test]
fn a_preserved_branch_stays() {
    let (changes, shown, result) =
        surroundings().run(remove_worktree(Some("feature/x"), true, false, false, false));
    assert_eq!(changes, down_to_origin("feature/x"));
    assert_eq!(
        shown[2..],
        ["Branch 'feature/x' preserved (not deleted)", "✓ Worktree removed successfully!"]
    );
    assert_eq!(result, Ok(()));
}

#[test]
fn the_branch_that_is_checked_out_goes_and_not_the_one_that_was_given() {
    let mut s = surroundings();
    s.head = Ok("feature/z");
    let (changes, shown, _) = s.run(by_name("feature/x"));
    assert_eq!(changes, all_changes("feature/z"));
    assert_eq!(shown[2], "Resolved branch from HEAD: feature/z (was: feature/x)");
}

#[test]
fn the_branch_on_record_goes_where_the_head_does_not_tell() {
    let mut s = surroundings();
    s.head = Err("detached".to_string());
    let (changes, shown, _) = s.run(by_name("feature/x"));
    assert_eq!(changes, all_changes("feature/x"));
    assert_eq!(
        shown[2],
        "⚠ Warning: Could not resolve branch from HEAD (detached). Attempting to use branch mapping..."
    );
    assert_eq!(shown[3], "Deleting branch: feature/x");

    let mut s = surroundings();
    s.head = Err("detached".to_string());
    s.records = vec![("feature-x", "feature/renamed")];
    let (changes, shown, _) = s.run(by_name("feature/x"));
    assert_eq!(changes, all_changes("feature/renamed"));
    assert_eq!(shown[3], "Resolved branch from mapping: feature/renamed (was: feature/x)");
}

#[test]
fn the_branch_that_was_given_goes_where_nothing_tells() {
    let mut s = surroundings();
    s.head = Err("detached".to_string());
    s.records = vec![];
    let (changes, shown, _) = s.run(by_name("feature/x"));
    assert_eq!(changes, all_changes("feature/x"));
    assert_eq!(
        shown[3],
        "⚠ Warning: Branch mapping not found. Using provided value: feature/x"
    );

    let mut s = surroundings();
    s.head = Err("detached".to_string());
    s.unreadable = true;
    let (changes, _, result) = s.run(by_name("feature/x"));
    assert_eq!(changes, all_changes("feature/x"));
    assert_eq!(result, Ok(()));
}

#[test]
fn a_worktree_that_is_not_there_is_an_error() {
    let mut s = surroundings();
    s.present = vec!["main"];
    let (changes, shown, result) = s.run(by_name("/store/repo/feature-x"));
    assert_eq!(changes, vec![]);
    assert_eq!(shown, Vec::<String>::new());
    assert_eq!(result, Err(CommandError::PathMissing(path_of("feature-x"))));
}

#[test]
fn a_directory_that_has_vanished_is_not_removed() {
    let mut s = surroundings();
    s.vanishes = true;
    let (changes, _, result) = s.run(by_name("feature/x"));
    assert_eq!(changes, all_changes("feature/x")[1..].to_vec());
    assert_eq!(result, Ok(()));
}

#[test]
fn a_directory_that_cannot_be_removed_stops_everything() {
    let mut s = surroundings();
    s.directory = Err("denied".to_string());
    let (changes, _, result) = s.run(by_name("feature/x"));
    assert_eq!(changes, all_changes("feature/x")[..1].to_vec());
    assert_eq!(result, Err(CommandError::DirectoryNotRemoved("denied".to_string())));
}

#[test]
fn a_record_that_cannot_be_pruned_stops_the_rest() {
    let mut s = surroundings();
    s.pruned = Err("locked".to_string());
    let (changes, _, result) = s.run(by_name("feature/x"));
    assert_eq!(changes, all_changes("feature/x")[..2].to_vec());
    assert_eq!(result, Err(CommandError::NotPruned("locked".to_string())));
}

#[test]
fn what_fails_after_pruning_is_only_warned_about() {
    let mut s = surroundings();
    s.origin = Err("o".to_string());
    s.mapping = Err("m".to_string());
    let (changes, shown, result) = s.run(by_name("feature/x"));
    assert_eq!(changes, all_changes("feature/x"));
    assert_eq!(
        shown[2..],
        [
            "⚠ Warning: Failed to clean up origin information: o",
            "Deleting branch: feature/x",
            "✓ Branch deleted successfully",
            "⚠ Warning: Failed to remove branch mapping: m",
            "✓ Worktree removed successfully!",
        ]
    );
    assert_eq!(result, Ok(()));
}

#[test]
fn a_branch_that_cannot_be_deleted_stays_on_record() {
    let mut s = surroundings();
    s.deleted = Err("checked out elsewhere".to_string());
    let (changes, shown, result) = s.run(by_name("feature/x"));
    assert_eq!(changes, all_changes("feature/x")[..4].to_vec());
    assert_eq!(
        shown[2..],
        [
            "Deleting branch: feature/x",
            "⚠ Warning: Failed to delete branch: checked out elsewhere",
            "✓ Worktree removed successfully!",
        ]
    );
    assert_eq!(
        result,
        Err(CommandError::BranchNotDeleted("checked out elsewhere".to_string()))
    );
}

#[test]
fn a_branch_that_is_preserved_cannot_fail_to_be_deleted() {
    let mut s = surroundings();
    s.deleted = Err("checked out elsewhere".to_string());
    s.origin = Err("o".to_string());
    let (changes, _, result) =
        s.run(remove_worktree(Some("feature/x"), true, false, false, false));
    assert_eq!(changes, down_to_origin("feature/x"));
    assert_eq!(result, Ok(()));
}

#[test]
fn completions_of_a_removal_are_empty_outside_of_a_repository() {
    let mut s = surroundings();
    s.in_repo = false;
    let (changes, shown, result) = s.run(remove_worktree(None, false, false, true, true));
    assert_eq!(changes, vec![]);
    assert_eq!(shown, Vec::<String>::new());
    assert_eq!(result, Ok(()));
}

#[test]
fn a_worktree_without_a_directory_name_goes_by_its_branch() {
    let mut session = by_name("feature/x");
    let mut s = surroundings();
    loop {
        let ask = session.request();
        let reply = match &ask {
            Request::LocateWorktree { .. } => {
                Reply::Located { path: PathBuf::from("/store/repo/.."), exists: true }
            }
            Request::PathExists(_) => Reply::PathExists(true),
            Request::PruneWorktree(name) => {
                assert_eq!(name, "feature/x");
                return;
            }
            other => s.reply(other),
        };
        session = match session.resume(reply) {
            Step::Continue { session, .. } => session,
            Step::Done { .. } => panic!("the command ended early"),
        };
    }
}

#[test]
fn the_user_chooses_what_to_remove() {
    let mut asked_for_choice = false;
    let mut s = surroundings();
    let mut session = remove_worktree(None, false, false, false, true);
    let result = loop {
        let ask = session.request();
        if let Request::Select { prompt, options } = &ask {
            asked_for_choice = true;
            assert_eq!(prompt, "Select worktree to remove:");
            assert_eq!(
                *options,
                vec![
                    "repo/feature/x (/store/repo/feature-x)".to_string(),
                    "repo/main (/store/repo/main)".to_string(),
                ]
            );
        }
        if let Request::ExtractPath(selection) | Request::ExtractBranch(selection) = &ask {
            assert_eq!(selection, "repo/feature/x (/store/repo/feature-x)");
        }
        let reply = s.reply(&ask);
        match session.resume(reply) {
            Step::Continue { session: next, .. } => session = next,
            Step::Done { result, .. } => break result,
        }
    };
    assert!(asked_for_choice);
    assert_eq!(result, Ok(()));
}

#[test]
fn a_choice_removes_what_was_chosen() {
    let (changes, _, result) =
        surroundings().run(remove_worktree(Some("main"), false, true, false, false));
    assert_eq!(changes, all_changes("feature/x"));
    assert_eq!(result, Ok(()));
}

#[test]
fn there_is_nothing_to_choose_from() {
    let mut s = surroundings();
    s.present = vec![];
    let (changes, _, result) = s.run(remove_worktree(None, false, false, false, false));
    assert_eq!(changes, vec![]);
    assert_eq!(result, Err(CommandError::NoWorktrees));
}

#[test]
fn completions_change_nothing_and_need_no_repository() {
    let mut s = surroundings();
    s.opened = Err("not a repository".to_string());
    let (changes, shown, result) =
        s.run(remove_worktree(Some("feature/x"), false, true, true, false));
    assert_eq!(changes, vec![]);
    assert_eq!(shown, vec!["feature/x", "main"]);
    assert_eq!(result, Ok(()));
}

#[test]
fn a_removal_needs_a_repository() {
    let mut s = surroundings();
    s.opened = Err("not a repository".to_string());
    let (changes, _, result) = s.run(by_name("feature/x"));
    assert_eq!(changes, vec![]);
    assert_eq!(result, Err(CommandError::Failed("not a repository".to_string())));
}

#[test]
fn a_stray_reply_does_not_advance_a_removal() {
    let mut s = surroundings();
    let mut session = by_name("feature/x");
    while !is_change(&session.request()) {
        let reply = s.reply(&session.request());
        session = match session.resume(reply) {
            Step::Continue { session, .. } => session,
            Step::Done { .. } => panic!("the command ended early"),
        };
    }
    let pending = session.request();
    let stray: Answer<String> = Reply::WorktreePruned(Ok(()));
    match session.resume(stray) {
        Step::Continue { lines, session } => {
            assert_eq!(lines, vec![]);
            assert_eq!(session.request(), pending);
        }
        Step::Done { .. } => panic!("a stray reply ended the command"),
    }
}
