use fzf_wrapped::{Border, Layout};
use workflows::config::fzf::{FzfConfig, DEFAULT_BORDER_LABEL, DEFAULT_OPEN_PROMPT};
use workflows::config::github::GithubConfig;
use workflows::config::tmuxinator::TmuxinatorConfig;
use workflows::config::WorkflowsConfig;

fn with_fzf(fzf: FzfConfig) -> WorkflowsConfig {
    WorkflowsConfig::new(Some(fzf), None, None)
}

fn section(
    layout: Option<&str>,
    border: Option<&str>,
    border_label: Option<&str>,
    open_prompt: Option<&str>,
) -> WorkflowsConfig {
    with_fzf(FzfConfig::new(
        layout.map(|s| s.to_string()),
        border.map(|s| s.to_string()),
        border_label.map(|s| s.to_string()),
        open_prompt.map(|s| s.to_string()),
    ))
}

#[test]
fn layout_works() {
    let config = section(Some("reverse"), None, None, None);

    assert_eq!(config.fzf().layout(), Layout::Reverse);
}

#[test]
fn default_layout_works() {
    let config = with_fzf(FzfConfig::empty());

    assert_eq!(config.fzf().raw_layout(), None);

    assert_eq!(config.fzf().layout(), Layout::default())
}

#[test]
fn border_works() {
    let config = section(None, Some("rounded"), None, None);

    assert_eq!(config.fzf().border(), Border::Rounded);
}

#[test]
fn default_border_works() {
    let config = with_fzf(FzfConfig::empty());

    assert_eq!(config.fzf().raw_border(), None);

    assert_eq!(config.fzf().border(), Border::default())
}

#[test]
fn invalid_border_recovers() {
    let config = section(None, Some("invalid-border"), None, None);

    assert_eq!(config.fzf().raw_border(), Some("invalid-border".to_string()));

    assert_eq!(config.fzf().border(), Border::default());
}

#[test]
fn border_label_works() {
    let config = section(None, None, Some("Workflows"), None);

    assert_eq!(config.fzf().raw_border_label(), Some("Workflows".to_string()));
}

#[test]
fn default_border_label_works() {
    let config = with_fzf(FzfConfig::empty());

    assert_eq!(config.fzf().raw_border_label(), None);

    assert_eq!(
        config.fzf().border_label(),
        DEFAULT_BORDER_LABEL.to_string()
    );
}

#[test]
fn open_prompt_works() {
    let config = section(None, None, None, Some("Launch: "));

    assert_eq!(config.fzf().raw_open_prompt(), Some("Launch: ".to_string()))
}

#[test]
fn default_open_prompt_works() {
    let config = with_fzf(FzfConfig::empty());

    assert_eq!(config.fzf().raw_open_prompt(), None);

    assert_eq!(config.fzf().open_prompt(), DEFAULT_OPEN_PROMPT.to_string())
}

#[test]
fn layout_name_is_case_insensitive() {
    let config = section(Some("Reverse-List"), None, None, None);
    assert_eq!(config.fzf().layout(), Layout::ReverseList);
}

#[test]
fn invalid_layout_recovers() {
    let config = section(Some("sideways"), None, None, None);
    assert_eq!(config.fzf().raw_layout(), Some("sideways".to_string()));
    assert_eq!(config.fzf().layout(), Layout::Default);
}

#[test]
fn border_name_is_case_insensitive() {
    let config = section(None, Some("SHARP"), None, None);
    assert_eq!(config.fzf().border(), Border::Sharp);
}

#[test]
fn omitted_sections_give_defaults() {
    let config = WorkflowsConfig::empty();
    let fzf = config.fzf();
    assert_eq!(fzf.layout(), Layout::Default);
    assert_eq!(fzf.border(), Border::None);
    assert_eq!(fzf.border_label(), "");
    assert_eq!(fzf.open_prompt(), "Open: ");
    let tmuxinator = config.tmuxinator();
    assert_eq!(tmuxinator.window_name(), "editor");
    assert_eq!(tmuxinator.on_open(), "nvim .");
    assert!(!tmuxinator.fresh_config());
    assert!(config.github().confirm_cloning());
}

#[test]
fn given_sections_are_kept() {
    let config = WorkflowsConfig::new(
        None,
        Some(TmuxinatorConfig::new(
            Some("code".to_string()),
            Some("hx .".to_string()),
            Some(true),
        )),
        Some(GithubConfig::new(Some(false))),
    );
    let tmuxinator = config.tmuxinator();
    assert_eq!(tmuxinator.window_name(), "code");
    assert_eq!(tmuxinator.on_open(), "hx .");
    assert!(tmuxinator.fresh_config());
    assert!(!config.github().confirm_cloning());
    assert_eq!(config.fzf().open_prompt(), "Open: ");
}
