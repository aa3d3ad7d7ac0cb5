//! Properties that hold across the library's functions

use crate::config::fzf::{
    is_border_name, is_layout_name, FzfConfig, DEFAULT_BORDER_LABEL, DEFAULT_OPEN_PROMPT,
};
use crate::config::github::{GithubConfig, DEFAULT_CONFIRM_CLONING};
use crate::config::tmuxinator::{TmuxinatorConfig, DEFAULT_ON_OPEN, DEFAULT_WINDOW_NAME};
use crate::text::{lemma_free_of_concat, lines, single_line, trim_end_ws};
use crate::tmuxinator::{lemma_session_config_lines, regenerates, render, session_doc, session_lines};
use crate::repo::join_path;
use crate::text::lower_of;
use fzf_wrapped::{Border, Layout};
use vstd::prelude::*;

verus! {

/// A border name that fzf_wrapped does not know resolves to the default
/// border, `none`, while the raw field keeps the name as it was written.
pub proof fn lemma_unknown_border_falls_back(config: FzfConfig, name: String)
    requires
        config.spec_raw_border() == Some(name),
        !is_border_name(lower_of(name@)),
    ensures
        config.spec_border() == Border::None,
        config.spec_raw_border() == Some(name),
{
}

/// A layout name that fzf_wrapped does not know resolves to the default
/// layout, while the raw field keeps the name as it was written.
pub proof fn lemma_unknown_layout_falls_back(config: FzfConfig, name: String)
    requires
        config.spec_raw_layout() == Some(name),
        !is_layout_name(lower_of(name@)),
    ensures
        config.spec_layout() == Layout::Default,
        config.spec_raw_layout() == Some(name),
{
}

/// Where a section is omitted, every accessor gives its default: layout
/// `default`, border `none`, border label `""`, prompt `Open: `, the default
/// window and command, no fresh config, and cloning confirmed.
pub proof fn lemma_omitted_sections_default(
    fzf: FzfConfig,
    tmuxinator: TmuxinatorConfig,
    github: GithubConfig,
)
    requires
        fzf.spec_is_empty(),
        tmuxinator.spec_is_empty(),
        github.spec_is_empty(),
    ensures
        fzf.spec_layout() == Layout::Default,
        fzf.spec_border() == Border::None,
        fzf.spec_border_label() == DEFAULT_BORDER_LABEL@,
        fzf.spec_open_prompt() == DEFAULT_OPEN_PROMPT@,
        tmuxinator.spec_window_name() == DEFAULT_WINDOW_NAME@,
        tmuxinator.spec_on_open() == DEFAULT_ON_OPEN@,
        !tmuxinator.spec_fresh_config(),
        github.spec_confirm_cloning() == DEFAULT_CONFIRM_CLONING,
{
}

/// The session config file written for a project, read back line by line,
/// names the project, has the project's directory as its root, and holds
/// exactly one window: the configured window running the configured command,
/// without the trailing whitespace that the written file drops. This holds where none of these texts holds a line break.
pub proof fn lemma_session_config_reads_back(
    config_dir: Seq<char>,
    name: Seq<char>,
    projects_dir: Seq<char>,
    config: TmuxinatorConfig,
)
    requires
        single_line(config_dir),
        single_line(name),
        single_line(projects_dir),
        single_line(config.spec_window_name()),
        single_line(config.spec_on_open()),
    ensures
        lines(trim_end_ws(render(config_dir, session_doc(name, projects_dir, config)))) == seq![
            "# "@ + config_dir,
            Seq::empty(),
            "name: "@ + name,
            "root: "@ + join_path(projects_dir, name),
            Seq::empty(),
            "windows:"@,
            trim_end_ws("  - "@ + config.spec_window_name() + ": "@ + config.spec_on_open()),
        ],
{
    reveal_strlit("/");
    let doc = session_doc(name, projects_dir, config);
    assert(single_line("/"@));
        lemma_free_of_concat(projects_dir, "/"@, '\n');
    lemma_free_of_concat(projects_dir + "/"@, name, '\n');
    lemma_session_config_lines(config_dir, doc);
    assert(session_lines(config_dir, doc) =~= seq![
        "# "@ + config_dir,
        Seq::empty(),
        "name: "@ + name,
        "root: "@ + join_path(projects_dir, name),
        Seq::empty(),
        "windows:"@,
        trim_end_ws("  - "@ + config.spec_window_name() + ": "@ + config.spec_on_open()),
    ]);
}

/// A launch writes the session config where a fresh one is asked for, even
/// if one exists, and where none exists; it keeps an existing config
/// otherwise.
pub proof fn lemma_regenerates(exists: bool)
    ensures
        regenerates(true, exists),
        regenerates(false, false),
        !regenerates(false, true),
{
}

} // verus!
