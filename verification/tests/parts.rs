use std::path::PathBuf;

use worktree_commands::head::{branch_of_head, resolve_branch_from_worktree_head};
use worktree_commands::listing::get_available_worktrees;
use worktree_commands::protocol::{CommandError, Request};
use worktree_commands::recency::{sort_newest_first, Dated};
use worktree_commands::text::contains_special_chars;
use worktree_commands::worktrees::{
    describe, find_worktree_by_name, list_worktree_completions, select_worktree_for_removal,
    select_worktree_interactive, Lookup, Worktree,
};

fn worktree(branch: &str) -> Worktree<String> {
    Worktree {
        repo: "repo".to_string(),
        branch: branch.to_string(),
        path: PathBuf::from(format!("/w/{}", branch)),
    }
}

fn dated(branch: &str, modified: Option<i128>) -> Dated<String> {
    Dated { worktree: worktree(branch), modified }
}

fn sorted(times: Vec<Option<i128>>) -> Vec<String> {
    let names = ["a", "b", "c", "d", "e", "f"];
    let list: Vec<Dated<String>> =
        times.iter().enumerate().map(|(i, t)| dated(names[i], *t)).collect();
    sort_newest_first(&list).iter().map(|w| w.branch.clone()).collect()
}

#[test]
fn the_newest_comes_first() {
    assert_eq!(sorted(vec![Some(1), Some(3), Some(2)]), vec!["b", "c", "a"]);
}

#[test]
fn unknown_times_come_last() {
    assert_eq!(sorted(vec![None, Some(-5), None, Some(7)]), vec!["d", "b", "a", "c"]);
}

#[test]
fn equal_times_stay_as_they_stood() {
    assert_eq!(
        sorted(vec![Some(2), Some(1), Some(2), Some(1), Some(2), None]),
        vec!["a", "c", "e", "b", "d", "f"]
    );
}

#[test]
fn sorting_nothing_gives_nothing() {
    assert_eq!(sorted(vec![]), Vec::<String>::new());
}

#[test]
fn special_characters() {
    for c in ["/", "\\", ":", "*", "?", "\"", "<", ">", "|"] {
        assert!(contains_special_chars(c));
        assert!(contains_special_chars(&format!("feature{}x", c)));
    }
    assert!(!contains_special_chars(""));
    assert!(!contains_special_chars("feature-x_1.0 ü"));
}

#[test]
fn an_exact_branch_wins_over_partial_ones() {
    let list = vec![worktree("main-old"), worktree("main"), worktree("main")];
    assert_eq!(find_worktree_by_name(&list, "main"), Lookup::Found(PathBuf::from("/w/main")));
}

#[test]
fn a_single_partial_branch_is_found() {
    let list = vec![worktree("feature/ü-login"), worktree("main")];
    assert_eq!(
        find_worktree_by_name(&list, "ü-l"),
        Lookup::Found(PathBuf::from("/w/feature/ü-login"))
    );
    assert_eq!(find_worktree_by_name(&list, "Main"), Lookup::Missing);
}

#[test]
fn several_partial_branches_are_ambiguous() {
    let list = vec![worktree("fix/a"), worktree("main"), worktree("fix/b")];
    assert_eq!(
        find_worktree_by_name(&list, "fix"),
        Lookup::Ambiguous(vec![worktree("fix/a"), worktree("fix/b")])
    );
}

#[test]
fn nothing_is_found_among_nothing() {
    assert_eq!(find_worktree_by_name(&vec![], ""), Lookup::Missing);
}

#[test]
fn options_and_completions() {
    let list = vec![worktree("feature/x"), worktree("y")];
    assert_eq!(describe(&list[0]), "repo/feature/x (/w/feature/x)");
    assert_eq!(list_worktree_completions(&list), vec!["feature/x", "y"]);
    let jump = select_worktree_interactive(&list).unwrap();
    assert_eq!(jump.prompt, "Jump to worktree:");
    assert_eq!(jump.options, vec!["repo/feature/x (/w/feature/x)", "repo/y (/w/y)"]);
    let remove = select_worktree_for_removal(&list).unwrap();
    assert_eq!(remove.prompt, "Select worktree to remove:");
    assert_eq!(remove.options, jump.options);
    assert!(select_worktree_interactive(&vec![]).is_none());
    assert!(select_worktree_for_removal(&vec![]).is_none());
}

#[test]
fn a_listing_starts_with_the_current_repository_or_with_all() {
    assert_eq!(get_available_worktrees(true).request(), Request::CurrentRepoName);
    assert_eq!(get_available_worktrees(false).request(), Request::ListAllWorktrees);
}

#[test]
fn the_short_name_of_a_head_is_preferred() {
    assert_eq!(
        branch_of_head(true, Some("topic/x"), Some("refs/heads/other")),
        Ok("topic/x".to_string())
    );
}

#[test]
fn the_full_name_of_a_head_loses_its_prefix() {
    assert_eq!(branch_of_head(true, None, Some("refs/heads/topic/x")), Ok("topic/x".to_string()));
}

#[test]
fn a_head_without_a_branch_is_unresolved() {
    let text = Err("Could not resolve branch from HEAD (detached or invalid)".to_string());
    assert_eq!(branch_of_head(false, Some("HEAD"), Some("HEAD")), text);
    assert_eq!(branch_of_head(true, None, None), text);
    assert_eq!(branch_of_head(true, None, Some("refs/tags/v1")), text);
}

/// A repository with one commit on the branch `topic/x`, which is checked out.
fn repository(path: &str) -> git2::Repository {
    let repo = git2::Repository::init(path).unwrap();
    let who = git2::Signature::now("A", "a@example.org").unwrap();
    let commit = {
        let tree_id = repo.treebuilder(None).unwrap().write().unwrap();
        let tree = repo.find_tree(tree_id).unwrap();
        repo.commit(None, &who, &who, "first", &tree, &[]).unwrap()
    };
    repo.reference("refs/heads/topic/x", commit, true, "branch").unwrap();
    repo.reference("refs/tags/v1", commit, true, "tag").unwrap();
    repo.reference("refs/heads/größe", commit, true, "branch").unwrap();
    repo.set_head("refs/heads/topic/x").unwrap();
    repo
}

#[test]
fn the_head_of_a_repository_on_a_branch_means_it() {
    let repo = repository("/tmp/worktree_commands_head_branch");
    let head = repo.head().unwrap();
    assert_eq!(resolve_branch_from_worktree_head(&head), Ok("topic/x".to_string()));
    let other = repo.find_reference("refs/heads/größe").unwrap();
    assert_eq!(resolve_branch_from_worktree_head(&other), Ok("größe".to_string()));
}

#[test]
fn a_detached_head_is_unresolved() {
    let repo = repository("/tmp/worktree_commands_head_detached");
    let commit = repo.head().unwrap().target().unwrap();
    repo.set_head_detached(commit).unwrap();
    let head = repo.head().unwrap();
    let text = "Could not resolve branch from HEAD (detached or invalid)".to_string();
    assert_eq!(resolve_branch_from_worktree_head(&head), Err(text.clone()));
    let tag = repo.find_reference("refs/tags/v1").unwrap();
    assert_eq!(resolve_branch_from_worktree_head(&tag), Err(text));
}

#[test]
fn messages_of_errors() {
    let text = |error: CommandError<String, String>| error.message();
    assert_eq!(text(CommandError::Failed("x".to_string())), None);
    assert_eq!(text(CommandError::NoWorktrees), Some("No worktrees found".to_string()));
    assert_eq!(
        text(CommandError::NoMatch("t".to_string())),
        Some("No worktree found matching 't'".to_string())
    );
    assert_eq!(text(CommandError::Ambiguous), Some("Ambiguous worktree name".to_string()));
    assert_eq!(
        text(CommandError::PathMissing(PathBuf::from("/a/b"))),
        Some("Worktree path does not exist: /a/b".to_string())
    );
    assert_eq!(
        text(CommandError::InvalidPath("/a".to_string())),
        Some("Invalid worktree path: /a".to_string())
    );
    assert_eq!(
        text(CommandError::NoWorktreeForBranch("a/b".to_string())),
        Some("No worktree found for branch 'a/b'".to_string())
    );
    assert_eq!(
        text(CommandError::UnknownBranch("a-b".to_string())),
        Some(
            "Cannot determine canonical branch name for 'a-b'. The branch mapping file may be missing or corrupted. Please specify the full branch name (e.g., 'feature/branch-name' instead of 'feature-branch-name')"
                .to_string()
        )
    );
    assert_eq!(
        text(CommandError::DirectoryNotRemoved("x".to_string())),
        Some("Failed to remove worktree directory".to_string())
    );
    assert_eq!(
        text(CommandError::NotPruned("x".to_string())),
        Some("Failed to remove worktree from git".to_string())
    );
    assert_eq!(
        text(CommandError::BranchNotDeleted("not found".to_string())),
        Some("Failed to delete branch: not found".to_string())
    );
    assert_eq!(
        text(CommandError::NoCurrentRepo),
        Some("Failed to determine current repository".to_string())
    );
}
