//! This module contains the tmuxinator integration: the session config files
//! kept in `~/.config/tmuxinator/`, one `<project>.yml` per project, and the
//! command that starts a session

use crate::config::tmuxinator::TmuxinatorConfig;
use crate::repo::{join, join_path, Repo};
use crate::text::{
    lemma_free_of_concat, lemma_lines_cons, lemma_lines_one, lemma_trim_end_concat,
    lemma_trim_end_prefix, lemma_trim_from_non_space, lines, single_line, trim, trim_end_ws,
};
use vstd::prelude::*;

verus! {

/// The tmuxinator config directory below a home directory
pub open spec fn config_dir_of(home: Seq<char>) -> Seq<char> {
    join_path(join_path(home, ".config/"@), "tmuxinator"@)
}

/// The path to the tmuxinator config directory, `<home>/.config/tmuxinator`
pub fn tmuxinator_config_dir(home: &str) -> (r: String)
    ensures
        r@ == config_dir_of(home@),
{
    let config = join(home, ".config/");
    join(config.as_str(), "tmuxinator")
}

/// The name of a project's session config file
pub open spec fn config_file_name(name: Seq<char>) -> Seq<char> {
    name + ".yml"@
}

/// The name of the project's session config file, `<name>.yml`
pub fn config_filename(project: &Repo) -> (r: String)
    ensures
        r@ == config_file_name(project@.name),
{
    let mut r = project.name();
    r.append(".yml");
    r
}

/// How many of the file names equal `name`
pub open spec fn count_named(files: Seq<String>, name: Seq<char>) -> nat
    decreases files.len(),
{
    if files.len() == 0 {
        0
    } else {
        count_named(files.drop_last(), name) + if files.last()@ == name { 1nat } else { 0nat }
    }
}

/// Whether a project has a session config among the files of the config
/// directory: exactly one file is named `<name>.yml`
pub open spec fn config_exists(files: Seq<String>, name: Seq<char>) -> bool {
    count_named(files, config_file_name(name)) == 1
}

/// Checks if the project already has a tmuxinator project
///
/// # Parameters
///
/// - `project`      The project to check for
/// - `config_files` The names of the files in the tmuxinator config directory
///
/// # Returns
///
/// `true` if exactly one of the files is `<projectname>.yml`
pub fn tmuxinator_project_exist(project: &Repo, config_files: &Vec<String>) -> (r: bool)
    ensures
        r == config_exists(config_files@, project@.name),
{
    let file_name = config_filename(project);
    let mut count: usize = 0;
    let mut i: usize = 0;
    while i < config_files.len()
        invariant
            i <= config_files.len(),
            count as nat == count_named(config_files@.subrange(0, i as int), file_name@),
            count <= i,
        decreases config_files.len() - i,
    {
        proof {
            assert(config_files@.subrange(0, i + 1).drop_last() =~= config_files@.subrange(0, i as int));
        }
        if config_files[i].eq(&file_name) {
            count = count + 1;
        }
        i += 1;
    }
    proof {
        assert(config_files@.subrange(0, config_files@.len() as int) =~= config_files@);
    }
    count == 1
}

/// A session config as a document: the project's name and root, and its
/// windows, each a name and the command run in it
pub struct SessionDoc {
    pub name: Seq<char>,
    pub root: Seq<char>,
    pub windows: Seq<(Seq<char>, Seq<char>)>,
}

/// The lines of the windows, each `  - <name>: <command>`, each after a line break
pub open spec fn windows_text(windows: Seq<(Seq<char>, Seq<char>)>) -> Seq<char>
    decreases windows.len(),
{
    if windows.len() == 0 {
        Seq::empty()
    } else {
        windows_text(windows.drop_last()) + "\n  - "@ + windows.last().0 + ": "@ + windows.last().1
    }
}

/// The text of a session config file whose header comment names `dir`
pub open spec fn render(dir: Seq<char>, doc: SessionDoc) -> Seq<char> {
    "# "@ + dir + "\n\nname: "@ + doc.name + "\nroot: "@ + doc.root + "\n\nwindows:"@ + windows_text(
        doc.windows,
    )
}

/// The document tmuxinator gets for a project: its name, its directory, and
/// one window running the configured command
pub open spec fn session_doc(name: Seq<char>, projects_dir: Seq<char>, config: TmuxinatorConfig) -> SessionDoc {
    SessionDoc {
        name: name,
        root: join_path(projects_dir, name),
        windows: seq![(config.spec_window_name(), config.spec_on_open())],
    }
}

/// The lines of a session config file with one window, as written: the
/// header comment, a blank line, the name, the root, a blank line, and the
/// windows section with its one entry, which loses any trailing whitespace
pub open spec fn session_lines(dir: Seq<char>, doc: SessionDoc) -> Seq<Seq<char>> {
    seq![
        "# "@ + dir,
        Seq::empty(),
        "name: "@ + doc.name,
        "root: "@ + doc.root,
        Seq::empty(),
        "windows:"@,
        trim_end_ws("  - "@ + doc.windows[0].0 + ": "@ + doc.windows[0].1),
    ]
}

/// A session config file with one window, read back line by line, gives the
/// directory, the name, the root and that window, each on a line of its own,
/// where none of them holds a line break.
pub proof fn lemma_session_config_lines(dir: Seq<char>, doc: SessionDoc)
    requires
        doc.windows.len() == 1,
        single_line(dir),
        single_line(doc.name),
        single_line(doc.root),
        single_line(doc.windows[0].0),
        single_line(doc.windows[0].1),
    ensures
        lines(trim_end_ws(render(dir, doc))) == session_lines(dir, doc),
{
    reveal_strlit("# ");
    reveal_strlit("\n");
    reveal_strlit("\n\nname: ");
    reveal_strlit("name: ");
    reveal_strlit("\nroot: ");
    reveal_strlit("root: ");
    reveal_strlit("\n\nwindows:");
    reveal_strlit("windows:");
    reveal_strlit("\n  - ");
    reveal_strlit("  - ");
    reveal_strlit(": ");
    let nl = "\n"@;
    let e = Seq::<char>::empty();
    let w = doc.windows[0];
    let l0 = "# "@ + dir;
    let l2 = "name: "@ + doc.name;
    let l3 = "root: "@ + doc.root;
    let l5 = "windows:"@;
    let l6 = "  - "@ + w.0 + ": "@ + w.1;
    assert(doc.windows.drop_last() =~= Seq::<(Seq<char>, Seq<char>)>::empty());
    assert(windows_text(doc.windows.drop_last()) =~= Seq::<char>::empty());
    assert(single_line("# "@));
    assert(single_line("name: "@));
    assert(single_line("root: "@));
    assert(single_line("windows:"@));
    assert(single_line("  - "@));
    assert(single_line(": "@));
    assert(single_line(e));
    lemma_free_of_concat("# "@, dir, '\n');
    lemma_free_of_concat("name: "@, doc.name, '\n');
    lemma_free_of_concat("root: "@, doc.root, '\n');
    lemma_free_of_concat("  - "@, w.0, '\n');
    lemma_free_of_concat("  - "@ + w.0, ": "@, '\n');
    lemma_free_of_concat("  - "@ + w.0 + ": "@, w.1, '\n');
    // the window line keeps its `-`, so trimming stays within it
    assert(l6[2] == '-');
    lemma_trim_end_prefix(l6, 2);
    let t6 = trim_end_ws(l6);
    assert forall|i: int| 0 <= i < t6.len() implies t6[i] != '\n' by {
        assert(t6[i] == l6[i]);
    }
    let prefix = l0 + nl + e + nl + l2 + nl + l3 + nl + e + nl + l5 + nl;
    assert(render(dir, doc) =~= prefix + l6);
    lemma_trim_end_concat(prefix, l6);
    let r5 = l5 + nl + t6;
    let r4 = e + nl + r5;
    let r3 = l3 + nl + r4;
    let r2 = l2 + nl + r3;
    let r1 = e + nl + r2;
    let r0 = l0 + nl + r1;
    assert(prefix + t6 =~= r0);
    lemma_lines_one(t6);
    lemma_lines_cons(l5, t6);
    lemma_lines_cons(e, r5);
    lemma_lines_cons(l3, r4);
    lemma_lines_cons(l2, r3);
    lemma_lines_cons(e, r2);
    lemma_lines_cons(l0, r1);
    assert(session_lines(dir, doc) =~= seq![l0, e, l2, l3, e, l5, t6]);
}

/// A file to write: its path and its contents
pub struct SessionFile {
    pub path: String,
    pub contents: String,
}

/// Creates a tmuxinator config for a project
///
/// # Parameters
///
/// - `project`      The project to create the config for
/// - `config`       The window name and the command to run on opening tmux
/// - `config_dir`   The tmuxinator config directory
/// - `projects_dir` The directory that holds the local projects
///
/// # Returns
///
/// The file to write, `<config_dir>/<name>.yml`, replacing any file there.
/// Its contents are trimmed: as they start with `# `, only the whitespace at
/// the end of the command goes.
pub fn create_tmuxinator_config(
    project: &Repo,
    config: &TmuxinatorConfig,
    config_dir: &str,
    projects_dir: &str,
) -> (r: SessionFile)
    ensures
        r.path@ == join_path(config_dir@, config_file_name(project@.name)),
        r.contents@ == trim_end_ws(render(config_dir@, session_doc(project@.name, projects_dir@, *config))),
{
    let file_name = config_filename(project);
    let path = join(config_dir, file_name.as_str());
    let root = project.get_project_root(projects_dir);
    let window_name = config.window_name();
    let on_open = config.on_open();
    let mut contents = String::from_str("# ");
    proof {
        reveal_strlit("# ");
    }
    contents.append(config_dir);
    contents.append("\n\nname: ");
    contents.append(project.name_str());
    contents.append("\nroot: ");
    contents.append(root.as_str());
    contents.append("\n\nwindows:");
    contents.append("\n  - ");
    contents.append(window_name.as_str());
    contents.append(": ");
    contents.append(on_open.as_str());
    proof {
        let doc = session_doc(project@.name, projects_dir@, *config);
        assert(doc.windows.drop_last() =~= Seq::<(Seq<char>, Seq<char>)>::empty());
        assert(windows_text(doc.windows.drop_last()) =~= Seq::<char>::empty());
        assert(doc.windows.last() == (window_name@, on_open@));
        assert(windows_text(doc.windows) =~= "\n  - "@ + window_name@ + ": "@ + on_open@);
        assert(contents@ =~= render(config_dir@, doc));
        assert(contents@[0] == '#');
        lemma_trim_from_non_space(contents@);
    }
    let contents = trim(contents.as_str());
    SessionFile { path, contents }
}

/// Deletes a tmuxinator config for a project
///
/// # Parameters
///
/// - `project`      The project to delete
/// - `config_files` The names of the files in the tmuxinator config directory
/// - `config_dir`   The tmuxinator config directory
///
/// # Returns
///
/// The file to remove, or `None` where the project has no config: then there
/// is nothing to do
pub fn delete_tmuxinator(project: &Repo, config_files: &Vec<String>, config_dir: &str) -> (r: Option<String>)
    ensures
        r is None <==> !config_exists(config_files@, project@.name),
        r matches Some(p) ==> p@ == join_path(config_dir@, config_file_name(project@.name)),
{
    if !tmuxinator_project_exist(project, config_files) {
        return None;
    }
    let file_name = config_filename(project);
    Some(join(config_dir, file_name.as_str()))
}

/// The command that starts the project's session, `tmuxinator start <name>`
pub open spec fn start_command(name: Seq<char>) -> Seq<char> {
    "tmuxinator start "@ + name
}

/// What launching a project takes: the config file to write first, if any,
/// and the shell command that starts the session
pub struct LaunchPlan {
    pub config_file: Option<SessionFile>,
    pub command: String,
}

/// Whether launching a project writes its session config: where a fresh
/// config is asked for, or where none exists yet
pub open spec fn regenerates(fresh_config: bool, exists: bool) -> bool {
    fresh_config || !exists
}

/// Plans running the selected project with tmuxinator
///
/// # Parameters
///
/// - `project`      The project to run
/// - `config`       The tmuxinator config of the program
/// - `config_files` The names of the files in the tmuxinator config directory
/// - `config_dir`   The tmuxinator config directory
/// - `projects_dir` The directory that holds the local projects
pub fn run_tmuxinator(
    project: &Repo,
    config: &TmuxinatorConfig,
    config_files: &Vec<String>,
    config_dir: &str,
    projects_dir: &str,
) -> (r: LaunchPlan)
    ensures
        r.config_file is Some <==> regenerates(
            config.spec_fresh_config(),
            config_exists(config_files@, project@.name),
        ),
        r.config_file matches Some(f) ==> {
            &&& f.path@ == join_path(config_dir@, config_file_name(project@.name))
            &&& f.contents@ == trim_end_ws(
                render(config_dir@, session_doc(project@.name, projects_dir@, *config)),
            )
        },
        r.command@ == start_command(project@.name),
{
    // fresh_config() goes first as it is cheaper than looking for the file
    let config_file = if config.fresh_config() || !tmuxinator_project_exist(project, config_files) {
        Some(create_tmuxinator_config(project, config, config_dir, projects_dir))
    } else {
        None
    };
    let mut command = String::from_str("tmuxinator start ");
    command.append(project.name_str());
    LaunchPlan { config_file, command }
}

} // verus!
