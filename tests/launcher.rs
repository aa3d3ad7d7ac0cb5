use fzf_wrapped::{Border, Layout};
use workflows::config::fzf::FzfConfig;
use workflows::config::tmuxinator::TmuxinatorConfig;
use workflows::flow::{
    after_clone_answer, answer_word, clone_answer_is_yes, delete_project, delete_question,
    first_action, valid_clone_answer, yes_word, Action,
};
use workflows::fzf::{fzf_args, fzf_input, run_fzf, selected_project};
use workflows::git::{repo_clean_tree, repo_pushed};
use workflows::projects::{get_local_projects, get_users_repos, parse_repo_listing};
use workflows::repo::{join, Repo};
use workflows::tmuxinator::{
    create_tmuxinator_config, delete_tmuxinator, run_tmuxinator, tmuxinator_config_dir,
    tmuxinator_project_exist,
};

fn names(repos: &[Repo]) -> Vec<String> {
    repos.iter().map(|r| r.name()).collect()
}

fn strings(v: &[&str]) -> Vec<String> {
    v.iter().map(|s| s.to_string()).collect()
}

#[test]
fn local_projects_are_the_directories() {
    let entries = vec![
        ("alpha".to_string(), true),
        ("notes.txt".to_string(), false),
        ("beta".to_string(), true),
    ];
    let repos = get_local_projects(&entries);
    assert_eq!(names(&repos), strings(&["alpha", "beta"]));
    assert!(repos.iter().all(|r| r.is_local() && r.url().is_none()));
}

#[test]
fn local_projects_of_empty_directory() {
    assert!(get_local_projects(&vec![]).is_empty());
}

#[test]
fn users_repos_leave_out_local_names() {
    let local = vec![Repo::local("alpha".to_string())];
    let listing = vec![
        ("alpha".to_string(), "https://github.com/u/alpha".to_string()),
        ("gamma".to_string(), "https://github.com/u/gamma".to_string()),
    ];
    let remote = get_users_repos(&local, &listing);
    assert_eq!(names(&remote), strings(&["gamma"]));
    assert!(!remote[0].is_local());
    assert_eq!(remote[0].url(), Some("https://github.com/u/gamma".to_string()));
}

#[test]
fn fzf_input_is_one_name_per_line() {
    let repos = vec![Repo::local("a".to_string()), Repo::local("bc".to_string())];
    assert_eq!(fzf_input(&repos), "a\nbc\n");
    assert_eq!(fzf_input(&vec![]), "");
}

#[test]
fn fzf_args_follow_config() {
    let config = FzfConfig::new(
        Some("reverse".to_string()),
        Some("rounded".to_string()),
        Some("Workflows".to_string()),
        None,
    );
    assert_eq!(config.layout(), Layout::Reverse);
    assert_eq!(config.border(), Border::Rounded);
    let args = fzf_args("Open: ", &config);
    assert_eq!(
        args,
        strings(&[
            "--layout=reverse",
            "--border=rounded",
            "--border-label=Workflows",
            "--prompt=Open: "
        ])
    );
}

#[test]
fn fzf_args_defaults() {
    let args = fzf_args("Delete: ", &FzfConfig::empty());
    assert_eq!(
        args,
        strings(&["--layout=default", "--border=none", "--border-label=", "--prompt=Delete: "])
    );
}

#[test]
fn run_fzf_trims_and_merges() {
    let local = vec![Repo::local("a".to_string())];
    let remote = vec![Repo::remote("b".to_string(), "u".to_string())];
    let (project, projects) = run_fzf("  b\n", &local, &remote, false);
    assert_eq!(project, "b");
    assert_eq!(names(&projects), strings(&["a", "b"]));
}

#[test]
fn run_fzf_in_delete_mode_keeps_local_only() {
    let local = vec![Repo::local("a".to_string())];
    let remote = vec![Repo::remote("b".to_string(), "u".to_string())];
    let (project, projects) = run_fzf("\n", &local, &remote, true);
    assert_eq!(project, "");
    assert_eq!(names(&projects), strings(&["a"]));
}

#[test]
fn selection_resolves_to_first_match() {
    let projects = vec![
        Repo::local("a".to_string()),
        Repo::remote("b".to_string(), "u".to_string()),
    ];
    let p = selected_project(&projects, &"b".to_string()).unwrap();
    assert!(!p.is_local());
    assert!(selected_project(&projects, &"".to_string()).is_none());
}

#[test]
fn join_adds_one_separator() {
    assert_eq!(join("/home/u/Projects/", "a"), "/home/u/Projects/a");
    assert_eq!(join("/home/u/Projects", "a"), "/home/u/Projects/a");
    assert_eq!(tmuxinator_config_dir("/home/u"), "/home/u/.config/tmuxinator");
}

#[test]
fn project_exists_only_with_exact_file() {
    let repo = Repo::local("web".to_string());
    assert!(tmuxinator_project_exist(&repo, &strings(&["web.yml", "api.yml"])));
    assert!(!tmuxinator_project_exist(&repo, &strings(&["Web.yml", "web.yaml"])));
    assert!(!tmuxinator_project_exist(&repo, &vec![]));
}

#[test]
fn session_config_text() {
    let repo = Repo::local("web".to_string());
    let config = TmuxinatorConfig::new(Some("editor".to_string()), Some("nvim .".to_string()), None);
    let file = create_tmuxinator_config(&repo, &config, "/h/.config/tmuxinator", "/h/Projects/");
    assert_eq!(file.path, "/h/.config/tmuxinator/web.yml");
    assert_eq!(
        file.contents,
        "# /h/.config/tmuxinator\n\nname: web\nroot: /h/Projects/web\n\nwindows:\n  - editor: nvim ."
    );
    let lines: Vec<&str> = file.contents.lines().collect();
    assert_eq!(lines[2], "name: web");
    assert_eq!(lines[3], "root: /h/Projects/web");
    assert_eq!(lines.iter().filter(|l| l.starts_with("  - ")).count(), 1);
}

#[test]
fn launch_regenerates_when_fresh_or_missing() {
    let repo = Repo::local("web".to_string());
    let existing = strings(&["web.yml"]);
    let fresh = TmuxinatorConfig::new(None, None, Some(true));
    let keep = TmuxinatorConfig::empty();
    let plan = run_tmuxinator(&repo, &fresh, &existing, "/c", "/p");
    assert!(plan.config_file.is_some());
    assert_eq!(plan.command, "tmuxinator start web");
    assert!(run_tmuxinator(&repo, &keep, &vec![], "/c", "/p").config_file.is_some());
    assert!(run_tmuxinator(&repo, &keep, &existing, "/c", "/p").config_file.is_none());
}

#[test]
fn declining_deletion_removes_nothing() {
    let repo = Repo::local("web".to_string());
    let plan = delete_project(&repo, false, &strings(&["web.yml"]), "/c", "/p");
    assert!(plan.config_file.is_none());
    assert!(plan.project_dir.is_none());
}

#[test]
fn deletion_without_config_is_no_op_for_config() {
    let repo = Repo::local("web".to_string());
    assert_eq!(delete_tmuxinator(&repo, &vec![], "/c"), None);
    let plan = delete_project(&repo, true, &vec![], "/c", "/p");
    assert!(plan.config_file.is_none());
    assert_eq!(plan.project_dir, Some("/p/web".to_string()));
}

#[test]
fn deletion_with_config_removes_both() {
    let repo = Repo::local("web".to_string());
    let plan = delete_project(&repo, true, &strings(&["web.yml"]), "/c/", "/p/");
    assert_eq!(plan.config_file, Some("/c/web.yml".to_string()));
    assert_eq!(plan.project_dir, Some("/p/web".to_string()));
    assert_eq!(delete_question(&repo), "Delete web?");
}

#[test]
fn actions_after_selection() {
    let local = Some(Repo::local("a".to_string()));
    let remote = Some(Repo::remote("b".to_string(), "u".to_string()));
    assert_eq!(first_action(&None, false, true), Action::Finish);
    assert_eq!(first_action(&local, true, true), Action::Delete);
    assert_eq!(first_action(&local, false, true), Action::Launch);
    assert_eq!(first_action(&remote, false, true), Action::AskToClone);
    assert_eq!(first_action(&remote, false, false), Action::Clone);
    assert_eq!(after_clone_answer(true), Action::Clone);
    assert_eq!(after_clone_answer(false), Action::Finish);
}

#[test]
fn git_checks() {
    assert!(repo_clean_tree(""));
    assert!(!repo_clean_tree(" M src/lib.rs\n"));
    assert!(repo_pushed("abc\n", "abc\n"));
    assert!(!repo_pushed("abc\n", "abd\n"));
}

#[test]
fn repo_listing_is_parsed_by_line() {
    let text = "alpha\thttps://github.com/u/alpha\nno tab here\nbeta\thttps://x/b\tc\n\ngamma\tg";
    assert_eq!(
        parse_repo_listing(text),
        vec![
            ("alpha".to_string(), "https://github.com/u/alpha".to_string()),
            ("beta".to_string(), "https://x/b\tc".to_string()),
            ("gamma".to_string(), "g".to_string()),
        ]
    );
    assert!(parse_repo_listing("").is_empty());
}

#[test]
fn clone_answers() {
    assert!(valid_clone_answer(" Yes \n"));
    assert!(valid_clone_answer("N"));
    assert!(!valid_clone_answer("maybe"));
    assert!(clone_answer_is_yes("Y"));
    assert!(clone_answer_is_yes("YES"));
    assert!(!clone_answer_is_yes("no"));
    assert!(answer_word("no"));
    assert!(!answer_word("No"));
    assert!(yes_word("y"));
    assert!(!yes_word("n"));
}

#[test]
fn session_config_drops_trailing_whitespace() {
    let repo = Repo::local("web".to_string());
    let spaced = TmuxinatorConfig::new(None, Some("nvim . ".to_string()), None);
    let file = create_tmuxinator_config(&repo, &spaced, "/c", "/p");
    assert!(file.contents.ends_with("  - editor: nvim ."));
    let empty = TmuxinatorConfig::new(None, Some("".to_string()), None);
    let file = create_tmuxinator_config(&repo, &empty, "/c", "/p");
    assert!(file.contents.ends_with("\n  - editor:"));
    assert!(file.contents.starts_with("# /c\n"));
}

#[test]
fn selection_drops_unicode_whitespace() {
    let local = vec![Repo::local("a".to_string())];
    let (project, _) = run_fzf("\u{3000}a\u{a0}\t\n", &local, &vec![], true);
    assert_eq!(project, "a");
}
