use std::path::PathBuf;

use worktree_commands::jump::{jump_worktree, Jump};
use worktree_commands::protocol::{Answer, Ask, CommandError, Line, Outcome, Reply, Request, Step};

/// A storage with worktrees of two repositories, as a table.
struct Surroundings {
    storage: Result<(), String>,
    current_repo: Result<Option<String>, String>,
    /// Repository, directory name, branch on record, whether it is there, time.
    worktrees: Vec<(&'static str, &'static str, Option<&'static str>, bool, Option<i128>)>,
    unreadable: Option<&'static str>,
    choice: Result<usize, String>,
}

fn surroundings() -> Surroundings {
    Surroundings {
        storage: Ok(()),
        current_repo: Ok(Some("alpha".to_string())),
        worktrees: vec![
            ("alpha", "main", None, true, Some(10)),
            ("alpha", "feature-login", Some("feature/login"), true, Some(30)),
            ("alpha", "gone", None, false, Some(99)),
            ("beta", "feature-login-form", Some("feature/login-form"), true, Some(20)),
            ("beta", "undated", None, true, None),
            ("beta", "main", None, true, Some(10)),
        ],
        unreadable: None,
        choice: Ok(0),
    }
}

fn path_of(repo: &str, name: &str) -> PathBuf {
    PathBuf::from(format!("/store/{}/{}", repo, name))
}

impl Surroundings {
    fn reply(&self, ask: &Ask) -> Answer<String> {
        match ask {
            Request::OpenStorage => Reply::StorageOpened(self.storage.clone()),
            Request::CurrentRepoName => Reply::CurrentRepo(self.current_repo.clone()),
            Request::ListRepoWorktrees(repo) => Reply::RepoWorktrees(Ok(self
                .worktrees
                .iter()
                .filter(|w| w.0 == repo)
                .map(|w| w.1.to_string())
                .collect())),
            Request::ListAllWorktrees => Reply::AllWorktrees(Ok(["alpha", "beta"]
                .iter()
                .map(|repo| {
                    let names = self
                        .worktrees
                        .iter()
                        .filter(|w| w.0 == *repo)
                        .map(|w| w.1.to_string())
                        .collect();
                    (repo.to_string(), names)
                })
                .collect())),
            Request::LocateWorktree { repo, name } => {
                let exists = self.worktrees.iter().any(|w| w.0 == repo && w.1 == name && w.3);
                Reply::Located { path: path_of(repo, name), exists }
            }
            Request::OriginalBranch { repo, name } => {
                if self.unreadable == Some(name.as_str()) {
                    return Reply::OriginalBranch(Err(format!("cannot read {}", name)));
                }
                let entry = self.worktrees.iter().find(|w| w.0 == repo && w.1 == name);
                Reply::OriginalBranch(Ok(entry.and_then(|w| w.2).map(|b| b.to_string())))
            }
            Request::ModifiedTime(path) => {
                let entry = self.worktrees.iter().find(|w| path_of(w.0, w.1) == *path);
                Reply::Modified(entry.and_then(|w| w.4))
            }
            Request::Select { options, .. } => {
                Reply::Selected(self.choice.clone().map(|i| options[i].clone()))
            }
            Request::ExtractPath(selection) => {
                let open = selection.rfind(" (");
                Reply::ExtractedPath(match open {
                    Some(at) => Ok(PathBuf::from(&selection[at + 2..selection.len() - 1])),
                    None => Err("no path".to_string()),
                })
            }
            other => panic!("a jump asked for {:?}", other),
        }
    }
}

fn run(s: &Surroundings, start: Jump) -> (Vec<Ask>, Vec<Line<String>>, Outcome<String>) {
    let mut asked = Vec::new();
    let mut shown = Vec::new();
    let mut session = start;
    loop {
        let ask = session.request();
        let reply = s.reply(&ask);
        asked.push(ask);
        match session.resume(reply) {
            Step::Continue { lines, session: next } => {
                shown.extend(lines);
                session = next;
            }
            Step::Done { lines, result } => {
                shown.extend(lines);
                return (asked, shown, result);
            }
        }
    }
}

fn out(text: &str) -> Line<String> {
    Line::Stdout(text.to_string())
}

fn err(text: &str) -> Line<String> {
    Line::Stderr(text.to_string())
}

#[test]
fn jump_to_an_exact_branch_puts_out_its_path() {
    let (_, lines, result) =
        run(&surroundings(), jump_worktree(Some("feature/login"), false, false, false));
    assert_eq!(lines, vec![out("/store/alpha/feature-login")]);
    assert_eq!(result, Ok(()));
}

#[test]
fn jump_to_a_part_of_one_branch_puts_out_its_path() {
    let (_, lines, result) = run(&surroundings(), jump_worktree(Some("form"), false, false, false));
    assert_eq!(lines, vec![out("/store/beta/feature-login-form")]);
    assert_eq!(result, Ok(()));
}

#[test]
fn jump_to_a_part_of_several_branches_is_ambiguous() {
    let (_, lines, result) =
        run(&surroundings(), jump_worktree(Some("feature"), false, false, false));
    assert_eq!(
        lines,
        vec![
            err("Multiple worktrees match 'feature'. Please be more specific:"),
            err("  alpha/feature/login"),
            err("  beta/feature/login-form"),
        ]
    );
    assert_eq!(result, Err(CommandError::Ambiguous));
}

#[test]
fn jump_prefers_the_newer_of_two_exact_branches_and_the_earlier_of_equal_age() {
    let (_, lines, _) = run(&surroundings(), jump_worktree(Some("main"), false, false, false));
    assert_eq!(lines, vec![out("/store/alpha/main")]);
    let mut s = surroundings();
    s.worktrees[5].4 = Some(11);
    let (_, lines, _) = run(&s, jump_worktree(Some("main"), false, false, false));
    assert_eq!(lines, vec![out("/store/beta/main")]);
}

#[test]
fn jump_to_an_unknown_name_fails() {
    let (_, lines, result) =
        run(&surroundings(), jump_worktree(Some("nothing"), false, false, false));
    assert_eq!(lines, vec![]);
    let error = result.unwrap_err();
    assert_eq!(error, CommandError::NoMatch("nothing".to_string()));
    assert_eq!(error.message(), Some("No worktree found matching 'nothing'".to_string()));
}

#[test]
fn jump_does_not_find_a_worktree_that_is_not_there() {
    let (_, _, result) = run(&surroundings(), jump_worktree(Some("gone"), false, false, false));
    assert_eq!(result, Err(CommandError::NoMatch("gone".to_string())));
}

#[test]
fn jump_to_the_empty_name_matches_every_branch() {
    let (_, lines, result) = run(&surroundings(), jump_worktree(Some(""), false, false, false));
    assert_eq!(lines.len(), 6);
    assert_eq!(result, Err(CommandError::Ambiguous));
}

#[test]
fn completions_are_branches_newest_first() {
    let (asked, lines, result) =
        run(&surroundings(), jump_worktree(Some("ignored"), true, true, false));
    assert_eq!(
        lines,
        vec![
            out("feature/login"),
            out("feature/login-form"),
            out("main"),
            out("main"),
            out("undated"),
        ]
    );
    assert_eq!(result, Ok(()));
    assert!(!asked.iter().any(|ask| matches!(ask, Request::Select { .. })));
}

#[test]
fn completions_of_the_current_repository_only() {
    let (asked, lines, _) = run(&surroundings(), jump_worktree(None, false, true, true));
    assert_eq!(lines, vec![out("feature/login"), out("main")]);
    assert_eq!(
        asked,
        vec![
            Request::OpenStorage,
            Request::CurrentRepoName,
            Request::ListRepoWorktrees("alpha".to_string()),
            Request::LocateWorktree { repo: "alpha".to_string(), name: "main".to_string() },
            Request::OriginalBranch { repo: "alpha".to_string(), name: "main".to_string() },
            Request::LocateWorktree {
                repo: "alpha".to_string(),
                name: "feature-login".to_string()
            },
            Request::OriginalBranch {
                repo: "alpha".to_string(),
                name: "feature-login".to_string()
            },
            Request::LocateWorktree { repo: "alpha".to_string(), name: "gone".to_string() },
            Request::ModifiedTime(path_of("alpha", "main")),
            Request::ModifiedTime(path_of("alpha", "feature-login")),
        ]
    );
}

#[test]
fn every_completion_can_be_jumped_to() {
    let s = surroundings();
    let (_, lines, _) = run(&s, jump_worktree(None, false, true, false));
    for line in lines {
        let branch = match line {
            Line::Stdout(text) => text,
            Line::Stderr(text) => panic!("{}", text),
        };
        let (_, shown, result) = run(&s, jump_worktree(Some(&branch), false, false, false));
        assert_eq!(result, Ok(()));
        assert_eq!(shown.len(), 1);
    }
}

#[test]
fn without_a_target_the_user_chooses() {
    let mut s = surroundings();
    s.choice = Ok(1);
    let (asked, lines, result) = run(&s, jump_worktree(None, false, false, false));
    assert!(asked.contains(&Request::Select {
        prompt: "Jump to worktree:".to_string(),
        options: vec![
            "alpha/feature/login (/store/alpha/feature-login)".to_string(),
            "beta/feature/login-form (/store/beta/feature-login-form)".to_string(),
            "alpha/main (/store/alpha/main)".to_string(),
            "beta/main (/store/beta/main)".to_string(),
            "beta/undated (/store/beta/undated)".to_string(),
        ],
    }));
    assert_eq!(lines, vec![out("/store/beta/feature-login-form")]);
    assert_eq!(result, Ok(()));
}

#[test]
fn the_user_chooses_where_that_is_asked_for_in_spite_of_a_target() {
    let (asked, _, _) = run(&surroundings(), jump_worktree(Some("main"), true, false, false));
    assert!(asked.iter().any(|ask| matches!(ask, Request::Select { .. })));
}

#[test]
fn there_is_nothing_to_choose_outside_of_a_repository() {
    let mut s = surroundings();
    s.current_repo = Ok(None);
    let (_, _, result) = run(&s, jump_worktree(None, false, false, true));
    let error = result.unwrap_err();
    assert_eq!(error, CommandError::NoWorktrees);
    assert_eq!(error.message(), Some("No worktrees found".to_string()));
}

#[test]
fn completions_of_the_current_repository_need_one() {
    let mut s = surroundings();
    s.current_repo = Ok(None);
    let (asked, lines, result) = run(&s, jump_worktree(None, false, true, true));
    assert_eq!(asked, vec![Request::OpenStorage, Request::CurrentRepoName]);
    assert_eq!(lines, vec![]);
    assert_eq!(result, Err(CommandError::NoCurrentRepo));

    let (_, lines, result) = run(&s, jump_worktree(None, false, true, false));
    assert_eq!(lines.len(), 5);
    assert_eq!(result, Ok(()));
}

#[test]
fn a_name_is_not_found_outside_of_a_repository() {
    let mut s = surroundings();
    s.current_repo = Ok(None);
    let (_, _, result) = run(&s, jump_worktree(Some("main"), false, false, true));
    assert_eq!(result, Err(CommandError::NoMatch("main".to_string())));
}

#[test]
fn failures_of_the_surroundings_are_passed_on() {
    let mut s = surroundings();
    s.storage = Err("no storage".to_string());
    let (asked, _, result) = run(&s, jump_worktree(None, false, true, false));
    assert_eq!(asked, vec![Request::OpenStorage]);
    let error = result.unwrap_err();
    assert_eq!(error, CommandError::Failed("no storage".to_string()));
    assert_eq!(error.message(), None);

    let mut s = surroundings();
    s.current_repo = Err("no directory".to_string());
    let (_, _, result) = run(&s, jump_worktree(None, false, true, true));
    assert_eq!(result, Err(CommandError::Failed("no directory".to_string())));

    let mut s = surroundings();
    s.choice = Err("interrupted".to_string());
    let (_, _, result) = run(&s, jump_worktree(None, false, false, false));
    assert_eq!(result, Err(CommandError::Failed("interrupted".to_string())));
}

#[test]
fn a_record_that_cannot_be_read_spoils_the_listing() {
    let mut s = surroundings();
    s.unreadable = Some("undated");
    let (_, lines, result) = run(&s, jump_worktree(None, false, true, false));
    assert_eq!(lines, vec![]);
    assert_eq!(result, Err(CommandError::Failed("cannot read undated".to_string())));
}

#[test]
fn a_record_is_not_read_where_nothing_is_there() {
    let mut s = surroundings();
    s.unreadable = Some("gone");
    let (_, _, result) = run(&s, jump_worktree(None, false, true, false));
    assert_eq!(result, Ok(()));
}

#[test]
fn a_reply_to_another_question_changes_nothing() {
    let session = jump_worktree(Some("main"), false, false, false);
    let stray: Answer<String> = Reply::PathExists(true);
    match session.resume(stray) {
        Step::Continue { lines, session } => {
            assert_eq!(lines, vec![]);
            assert_eq!(session.request(), Request::OpenStorage);
        }
        Step::Done { .. } => panic!("a stray reply ended the command"),
    }
}
