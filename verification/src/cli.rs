//! The command line and the project file: which word is a command, which
//! script shadows one, and how a dependency is named.

use crate::config::FileConfig;
use crate::session::{ascending, sort_names};
use crate::text::{
    chars_of, is_str, push_all, push_str, starts_with, str_eq, string_of, text_starts_with, trim,
    trimmed,
};
use vstd::prelude::*;

verus! {

/// Whether a word is one of the built-in commands.
pub open spec fn is_command_word(word: Seq<char>) -> bool {
    word == "run"@ || word == "bundle"@ || word == "install"@ || word == "i"@ || word == "lint"@
        || word == "fmt"@ || word == "test"@ || word == "eval"@ || word == "repl"@
}

/// Whether `word` is one of the built-in commands.
pub fn is_predefined_command(word: &str) -> (r: bool)
    ensures
        r == is_command_word(word@),
{
    let w = chars_of(word);
    is_str(&w, "run") || is_str(&w, "bundle") || is_str(&w, "install") || is_str(&w, "i") || is_str(
        &w,
        "lint",
    ) || is_str(&w, "fmt") || is_str(&w, "test") || is_str(&w, "eval") || is_str(&w, "repl")
}

/// The arguments as the command line parser is to see them: where the
/// first argument is neither a command nor a flag, it is taken for a file
/// to run, and `run` is put in front of it.
pub open spec fn normalized_args(args: Seq<Seq<char>>) -> Seq<Seq<char>> {
    if args.len() < 2 || is_command_word(args[1]) || starts_with(args[1], "-"@) {
        args
    } else {
        args.insert(1, "run"@)
    }
}

/// Puts `run` in front of a first argument that is neither a command
/// nor a flag.
pub fn normalize_cli_args(args: Vec<String>) -> (r: Vec<String>)
    ensures
        r.deep_view() == normalized_args(args.deep_view()),
{
    let mut normalized = args;
    if normalized.len() < 2 {
        return normalized;
    }
    let dash = chars_of("-");
    let first = chars_of(normalized[1].as_str());
    assert(first@ == args.deep_view()[1]);
    let is_known = is_predefined_command(normalized[1].as_str());
    let is_flag = text_starts_with(&first, &dash);
    if !is_known && !is_flag {
        normalized.insert(1, "run".to_string());
        assert(normalized.deep_view() =~= args.deep_view().insert(1, "run"@));
    }
    normalized
}

/// The names of `scripts` that are built-in commands, in the order of
/// `scripts`.
pub open spec fn shadowing(scripts: Seq<(String, String)>) -> Seq<Seq<char>>
    decreases scripts.len(),
{
    if scripts.len() == 0 {
        Seq::empty()
    } else if is_command_word(scripts.last().0@) {
        shadowing(scripts.drop_last()).push(scripts.last().0@)
    } else {
        shadowing(scripts.drop_last())
    }
}

/// The scripts of a project that bear the name of a built-in command, in
/// ascending order, each once.
pub fn predefined_script_collisions(cfg: &FileConfig) -> (r: Vec<String>)
    ensures
        r.deep_view() == match cfg.scripts {
            Some(scripts) => ascending(shadowing(scripts@)),
            None => Seq::empty(),
        },
{
    let scripts = match &cfg.scripts {
        Some(scripts) => scripts,
        None => {
            let none: Vec<String> = Vec::new();
            assert(none.deep_view() =~= Seq::<Seq<char>>::empty());
            return none;
        },
    };
    let mut found: Vec<String> = Vec::new();
    let mut i: usize = 0;
    assert(found.deep_view() =~= shadowing(scripts@.take(0)));
    while i < scripts.len()
        invariant
            i <= scripts.len(),
            found.deep_view() == shadowing(scripts@.take(i as int)),
        decreases scripts.len() - i,
    {
        proof {
            let p = scripts@.take(i + 1);
            assert(p.drop_last() == scripts@.take(i as int));
            assert(p.last() == scripts@[i as int]);
        }
        if is_predefined_command(scripts[i].0.as_str()) {
            let ghost before = found.deep_view();
            found.push(scripts[i].0.clone());
            assert(found.deep_view() =~= before.push(scripts@[i as int].0@));
        }
        i += 1;
    }
    assert(scripts@.take(scripts.len() as int) == scripts@);
    sort_names(&found)
}

/// The command line of the first script from position `from` on that
/// bears the name.
pub open spec fn script_command(scripts: Seq<(String, String)>, name: Seq<char>, from: int) -> Option<
    Seq<char>,
>
    decreases scripts.len() - from,
{
    if from < 0 || from >= scripts.len() {
        None
    } else if scripts[from].0@ == name {
        Some(scripts[from].1@)
    } else {
        script_command(scripts, name, from + 1)
    }
}

/// The command line of a script, where the project has a script of that
/// name.
pub fn script_named(cfg: &FileConfig, name: &str) -> (r: Option<String>)
    ensures
        r.deep_view() == match cfg.scripts {
            Some(scripts) => script_command(scripts@, name@, 0),
            None => None,
        },
{
    let scripts = match &cfg.scripts {
        Some(scripts) => scripts,
        None => {
            return None;
        },
    };
    let mut i: usize = 0;
    while i < scripts.len()
        invariant
            i <= scripts.len(),
            cfg.scripts == Some(*scripts),
            script_command(scripts@, name@, 0) == script_command(scripts@, name@, i as int),
        decreases scripts.len() - i,
    {
        if str_eq(scripts[i].0.as_str(), name) {
            return Some(scripts[i].1.clone());
        }
        i += 1;
    }
    None
}

/// The name under which a dependency is fetched: the trimmed name behind
/// `jsr:`, which is not put in front a second time, and the trimmed
/// version behind `@` where there is a version.
pub open spec fn jsr_spec(name: Seq<char>, version: Seq<char>) -> Seq<char> {
    let dep = trimmed(name);
    let base = if starts_with(dep, "jsr:"@) {
        dep
    } else {
        "jsr:"@ + dep
    };
    if trimmed(version).len() == 0 {
        base
    } else {
        base + "@"@ + trimmed(version)
    }
}

/// The name under which a dependency of the project is fetched.
pub fn dependency_to_jsr_spec(name: &str, version: &str) -> (r: String)
    ensures
        r@ == jsr_spec(name@, version@),
{
    let dep = trim(&chars_of(name));
    let version = trim(&chars_of(version));
    let prefix = chars_of("jsr:");
    let mut out: Vec<char> = Vec::new();
    if !text_starts_with(&dep, &prefix) {
        push_str(&mut out, "jsr:");
    }
    push_all(&mut out, &dep);
    if version.len() > 0 {
        push_str(&mut out, "@");
        push_all(&mut out, &version);
    }
    string_of(&out)
}

/// What is found in a project directory.
#[derive(Debug, Clone, Copy, PartialEq, Eq, Structural)]
pub struct ProjectFiles {
    pub deno_json: bool,
    pub deno_jsonc: bool,
    pub cargo_toml: bool,
    pub package_json: bool,
    pub tsconfig_json: bool,
    pub jsconfig_json: bool,
}

/// Whether the tooling of Deno is preferred for a project: where it has
/// a Deno configuration, and else where it has a manifest of a JavaScript
/// or TypeScript project and none of a Rust project.
pub fn should_prefer_deno_tooling(files: ProjectFiles) -> (r: bool)
    ensures
        r == (files.deno_json || files.deno_jsonc || ((files.package_json || files.tsconfig_json
            || files.jsconfig_json) && !files.cargo_toml)),
{
    if files.deno_json || files.deno_jsonc {
        return true;
    }
    let has_js_ts_manifest = files.package_json || files.tsconfig_json || files.jsconfig_json;
    has_js_ts_manifest && !files.cargo_toml
}

/// What a line of an interactive session is.
#[derive(Debug, Clone, PartialEq, Eq)]
pub enum ReplLine {
    /// Nothing but whitespace.
    Blank,
    Help,
    Exit,
    /// A `.web` command, trimmed.
    Web(String),
    /// Anything else, trimmed: a statement to translate and run.
    Statement(String),
}

/// A line of a session as plain text.
pub enum ReplLineView {
    Blank,
    Help,
    Exit,
    Web(Seq<char>),
    Statement(Seq<char>),
}

impl View for ReplLine {
    type V = ReplLineView;

    open spec fn view(&self) -> ReplLineView {
        match self {
            ReplLine::Blank => ReplLineView::Blank,
            ReplLine::Help => ReplLineView::Help,
            ReplLine::Exit => ReplLineView::Exit,
            ReplLine::Web(t) => ReplLineView::Web(t@),
            ReplLine::Statement(t) => ReplLineView::Statement(t@),
        }
    }
}

/// What a line is, once the whitespace around it is gone: nothing, one
/// of the commands `.help` and `.exit`, a `.web` command, or a statement.
pub open spec fn line_kind(line: Seq<char>) -> ReplLineView {
    let t = trimmed(line);
    if t.len() == 0 {
        ReplLineView::Blank
    } else if t == ".help"@ {
        ReplLineView::Help
    } else if starts_with(t, ".web"@) {
        ReplLineView::Web(t)
    } else if t == ".exit"@ {
        ReplLineView::Exit
    } else {
        ReplLineView::Statement(t)
    }
}

/// Tells the commands of a session from the statements.
pub fn classify_repl_line(line: &str) -> (r: ReplLine)
    ensures
        r@ == line_kind(line@),
{
    let t = trim(&chars_of(line));
    let web = chars_of(".web");
    if t.len() == 0 {
        ReplLine::Blank
    } else if is_str(&t, ".help") {
        ReplLine::Help
    } else if text_starts_with(&t, &web) {
        ReplLine::Web(string_of(&t))
    } else if is_str(&t, ".exit") {
        ReplLine::Exit
    } else {
        ReplLine::Statement(string_of(&t))
    }
}

// ---------------------------------------------------------------------------
// The tools behind `lint`, `fmt`, `test` and `install`
// ---------------------------------------------------------------------------

/// A program to run, with its arguments.
#[derive(Debug, Clone, PartialEq, Eq)]
pub struct ToolCommand {
    pub program: String,
    pub args: Vec<String>,
    /// How the command is named when it fails.
    pub display: String,
}

/// A command as plain text.
pub struct ToolCommandView {
    pub program: Seq<char>,
    pub args: Seq<Seq<char>>,
    pub display: Seq<char>,
}

impl View for ToolCommand {
    type V = ToolCommandView;

    open spec fn view(&self) -> ToolCommandView {
        ToolCommandView {
            program: self.program@,
            args: self.args.deep_view(),
            display: self.display@,
        }
    }
}

/// How a project is linted: by Deno where its tooling is preferred, and
/// else by Clippy over all targets and features.  Fixing is passed on to
/// either; Clippy then fixes a tree with changes in it as well.
pub open spec fn lint_command_of(use_deno: bool, fix: bool, paths: Seq<Seq<char>>) -> ToolCommandView {
    if use_deno {
        ToolCommandView {
            program: "deno"@,
            args: seq!["lint"@] + (if fix {
                seq!["--fix"@]
            } else {
                Seq::empty()
            }) + paths,
            display: "lint"@,
        }
    } else {
        ToolCommandView {
            program: "cargo"@,
            args: seq!["clippy"@, "--all-targets"@, "--all-features"@] + (if fix {
                seq!["--fix"@, "--allow-dirty"@, "--allow-staged"@]
            } else {
                Seq::empty()
            }) + paths,
            display: "clippy"@,
        }
    }
}

fn append_texts(args: &mut Vec<String>, more: Vec<String>)
    ensures
        final(args).deep_view() == old(args).deep_view() + more.deep_view(),
{
    let ghost before = args.deep_view();
    let ghost tail = more.deep_view();
    let mut more = more;
    args.append(&mut more);
    assert(args.deep_view() =~= before + tail);
}

fn texts_of(words: &[&str]) -> (r: Vec<String>)
    ensures
        r.deep_view() == Seq::new(words@.len(), |i: int| words@[i]@),
{
    let mut out: Vec<String> = Vec::new();
    let mut i: usize = 0;
    while i < words.len()
        invariant
            i <= words.len(),
            out.deep_view() == Seq::new(words@.len(), |k: int| words@[k]@).take(i as int),
        decreases words.len() - i,
    {
        let ghost before = out.deep_view();
        out.push(words[i].to_string());
        assert(out.deep_view() =~= before.push(words@[i as int]@));
        assert(out.deep_view() =~= Seq::new(words@.len(), |k: int| words@[k]@).take(i + 1));
        i += 1;
    }
    assert(out.deep_view() =~= Seq::new(words@.len(), |k: int| words@[k]@));
    out
}

/// The command that lints a project.
pub fn lint_invocation(use_deno: bool, fix: bool, paths: Vec<String>) -> (command: ToolCommand)
    ensures
        command@ == lint_command_of(use_deno, fix, paths.deep_view()),
{
    if use_deno {
        let mut args = texts_of(&["lint"]);
        assert(args.deep_view() =~= seq!["lint"@]);
        if fix {
            append_texts(&mut args, texts_of(&["--fix"]));
            assert(args.deep_view() =~= seq!["lint"@] + seq!["--fix"@]);
        } else {
            assert(args.deep_view() =~= seq!["lint"@] + Seq::<Seq<char>>::empty());
        }
        append_texts(&mut args, paths);
        ToolCommand { program: "deno".to_string(), args, display: "lint".to_string() }
    } else {
        let mut args = texts_of(&["clippy", "--all-targets", "--all-features"]);
        let ghost head = seq!["clippy"@, "--all-targets"@, "--all-features"@];
        assert(args.deep_view() =~= head);
        if fix {
            append_texts(&mut args, texts_of(&["--fix", "--allow-dirty", "--allow-staged"]));
            assert(args.deep_view() =~= head + seq![
                "--fix"@,
                "--allow-dirty"@,
                "--allow-staged"@,
            ]);
        } else {
            assert(args.deep_view() =~= head + Seq::<Seq<char>>::empty());
        }
        append_texts(&mut args, paths);
        ToolCommand { program: "cargo".to_string(), args, display: "clippy".to_string() }
    }
}

/// How a project is formatted: by Deno where its tooling is preferred,
/// which takes the paths, and else by `cargo fmt` over the whole
/// workspace, which takes none.
pub open spec fn fmt_command_of(use_deno: bool, check: bool, paths: Seq<Seq<char>>) -> ToolCommandView {
    if use_deno {
        ToolCommandView {
            program: "deno"@,
            args: seq!["fmt"@] + (if check {
                seq!["--check"@]
            } else {
                Seq::empty()
            }) + paths,
            display: "fmt"@,
        }
    } else {
        ToolCommandView {
            program: "cargo"@,
            args: seq!["fmt"@, "--all"@] + (if check {
                seq!["--check"@]
            } else {
                Seq::empty()
            }),
            display: "fmt"@,
        }
    }
}

/// The command that formats a project.
pub fn fmt_invocation(use_deno: bool, check: bool, paths: Vec<String>) -> (command: ToolCommand)
    ensures
        command@ == fmt_command_of(use_deno, check, paths.deep_view()),
{
    let mut args = if use_deno {
        texts_of(&["fmt"])
    } else {
        texts_of(&["fmt", "--all"])
    };
    let ghost head = if use_deno {
        seq!["fmt"@]
    } else {
        seq!["fmt"@, "--all"@]
    };
    assert(args.deep_view() =~= head);
    if check {
        append_texts(&mut args, texts_of(&["--check"]));
        assert(args.deep_view() =~= head + seq!["--check"@]);
    } else {
        assert(args.deep_view() =~= head + Seq::<Seq<char>>::empty());
    }
    if use_deno {
        append_texts(&mut args, paths);
        ToolCommand { program: "deno".to_string(), args, display: "fmt".to_string() }
    } else {
        ToolCommand { program: "cargo".to_string(), args, display: "fmt".to_string() }
    }
}

/// Whether paths that were given to `fmt` are left unused: `cargo fmt`
/// formats the whole workspace.
pub fn fmt_ignores_paths(use_deno: bool, paths: &Vec<String>) -> (r: bool)
    ensures
        r == (!use_deno && paths@.len() > 0),
{
    !use_deno && paths.len() > 0
}

/// The command that runs the tests of a project: `deno test` with the
/// arguments as they are.
pub fn test_invocation(args: Vec<String>) -> (command: ToolCommand)
    ensures
        command@ == (ToolCommandView {
            program: "deno"@,
            args: seq!["test"@] + args.deep_view(),
            display: "test"@,
        }),
{
    let mut all = texts_of(&["test"]);
    assert(all.deep_view() =~= seq!["test"@]);
    append_texts(&mut all, args);
    ToolCommand { program: "deno".to_string(), args: all, display: "test".to_string() }
}

/// The names under which the dependencies are fetched, in their order.
pub open spec fn jsr_specs(dependencies: Seq<(String, String)>) -> Seq<Seq<char>> {
    Seq::new(dependencies.len(), |i: int| jsr_spec(dependencies[i].0@, dependencies[i].1@))
}

/// What `install` does for a project.
#[derive(Debug, Clone, PartialEq, Eq)]
pub enum InstallPlan {
    /// The project installs itself: its `install` script is run.
    RunScript(String),
    /// The project has no dependencies.
    Nothing,
    /// Each of these is fetched.
    Fetch(Vec<String>),
}

/// A plan as plain text.
pub enum InstallPlanView {
    RunScript(Seq<char>),
    Nothing,
    Fetch(Seq<Seq<char>>),
}

impl View for InstallPlan {
    type V = InstallPlanView;

    open spec fn view(&self) -> InstallPlanView {
        match self {
            InstallPlan::RunScript(command) => InstallPlanView::RunScript(command@),
            InstallPlan::Nothing => InstallPlanView::Nothing,
            InstallPlan::Fetch(specs) => InstallPlanView::Fetch(specs.deep_view()),
        }
    }
}

/// Plans the installation of a project: its `install` script where it
/// has one, and else its dependencies.
pub fn install_plan(cfg: &FileConfig) -> (plan: InstallPlan)
    ensures
        plan@ == match cfg.scripts {
            Some(scripts) if script_command(scripts@, "install"@, 0) is Some => InstallPlanView::RunScript(
                script_command(scripts@, "install"@, 0)->0,
            ),
            _ => match cfg.dependencies {
                Some(deps) if deps@.len() > 0 => InstallPlanView::Fetch(jsr_specs(deps@)),
                _ => InstallPlanView::Nothing,
            },
        },
{
    if let Some(command) = script_named(cfg, "install") {
        return InstallPlan::RunScript(command);
    }
    let deps = match &cfg.dependencies {
        Some(deps) => deps,
        None => {
            return InstallPlan::Nothing;
        },
    };
    if deps.len() == 0 {
        return InstallPlan::Nothing;
    }
    let mut specs: Vec<String> = Vec::new();
    let mut i: usize = 0;
    assert(specs.deep_view() =~= jsr_specs(deps@).take(0));
    while i < deps.len()
        invariant
            i <= deps.len(),
            specs.deep_view() == jsr_specs(deps@).take(i as int),
        decreases deps.len() - i,
    {
        let ghost before = specs.deep_view();
        let spec = dependency_to_jsr_spec(deps[i].0.as_str(), deps[i].1.as_str());
        specs.push(spec);
        assert(specs.deep_view() =~= before.push(spec@));
        assert(specs.deep_view() =~= jsr_specs(deps@).take(i + 1));
        i += 1;
    }
    assert(jsr_specs(deps@).take(deps.len() as int) =~= jsr_specs(deps@));
    InstallPlan::Fetch(specs)
}

} // verus!
