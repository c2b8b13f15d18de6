use klumo::cli::{
    classify_repl_line, dependency_to_jsr_spec, fmt_ignores_paths, fmt_invocation, install_plan,
    is_predefined_command, lint_invocation, normalize_cli_args, predefined_script_collisions,
    script_named, should_prefer_deno_tooling, test_invocation, InstallPlan, ProjectFiles,
    ReplLine, ToolCommand,
};
use klumo::config::FileConfig;

fn args(items: &[&str]) -> Vec<String> {
    items.iter().map(|s| s.to_string()).collect()
}

#[test]
fn dependency_to_jsr_spec_supports_scoped_packages() {
    assert_eq!(
        dependency_to_jsr_spec("@arvid/is-char", "latest"),
        "jsr:@arvid/is-char@latest"
    );
    assert_eq!(
        dependency_to_jsr_spec("jsr:@scope/pkg", "1.2.3"),
        "jsr:@scope/pkg@1.2.3"
    );
    assert_eq!(dependency_to_jsr_spec("@scope/pkg", ""), "jsr:@scope/pkg");
}

#[test]
fn normalize_cli_args_infers_run_for_bare_file() {
    let normalized = normalize_cli_args(args(&["klumo", "app.js"]));
    assert_eq!(normalized[1], "run");
    assert_eq!(normalized[2], "app.js");
}

#[test]
fn normalize_cli_args_keeps_install_alias() {
    let normalized = normalize_cli_args(args(&["klumo", "i"]));
    assert_eq!(normalized[1], "i");
    assert_eq!(normalized.len(), 2);
}

#[test]
fn normalize_cli_args_keeps_lint_command() {
    let normalized = normalize_cli_args(args(&["klumo", "lint"]));
    assert_eq!(normalized[1], "lint");
    assert_eq!(normalized.len(), 2);
}

#[test]
fn predefined_script_collisions_detects_reserved_names() {
    let cfg = FileConfig {
        scripts: Some(
            [
                ("lint".to_string(), "echo lint".to_string()),
                ("start".to_string(), "echo start".to_string()),
                ("i".to_string(), "echo install".to_string()),
            ]
            .into_iter()
            .collect(),
        ),
        ..FileConfig::default()
    };

    let collisions = predefined_script_collisions(&cfg);
    assert_eq!(collisions, vec!["i".to_string(), "lint".to_string()]);
}

#[test]
fn arguments_are_left_alone_unless_a_file_stands_first() {
    assert_eq!(normalize_cli_args(args(&[])), args(&[]));
    assert_eq!(normalize_cli_args(args(&["klumo"])), args(&["klumo"]));
    assert_eq!(normalize_cli_args(args(&["klumo", "--help"])), args(&["klumo", "--help"]));
    assert_eq!(normalize_cli_args(args(&["klumo", "-V", "x"])), args(&["klumo", "-V", "x"]));
    assert_eq!(
        normalize_cli_args(args(&["klumo", "lint.js", "--self-heal"])),
        args(&["klumo", "run", "lint.js", "--self-heal"])
    );
    assert_eq!(normalize_cli_args(args(&["klumo", ""])), args(&["klumo", "run", ""]));
    for word in ["run", "bundle", "install", "i", "lint", "fmt", "test", "eval", "repl"] {
        assert!(is_predefined_command(word));
        assert_eq!(normalize_cli_args(args(&["klumo", word])), args(&["klumo", word]));
    }
    assert!(!is_predefined_command("Run"));
    assert!(!is_predefined_command("start"));
}

#[test]
fn scripts_are_found_by_name() {
    let cfg = FileConfig {
        scripts: Some(vec![
            ("build".to_string(), "make".to_string()),
            ("install".to_string(), "npm ci".to_string()),
            ("build".to_string(), "later".to_string()),
        ]),
        ..FileConfig::default()
    };
    assert_eq!(script_named(&cfg, "build").as_deref(), Some("make"));
    assert_eq!(script_named(&cfg, "install").as_deref(), Some("npm ci"));
    assert_eq!(script_named(&cfg, "test"), None);
    assert_eq!(script_named(&FileConfig::default(), "build"), None);
    assert_eq!(predefined_script_collisions(&cfg), vec!["install".to_string()]);
    assert_eq!(predefined_script_collisions(&FileConfig::default()), Vec::<String>::new());
}

#[test]
fn dependency_names_and_versions_are_trimmed() {
    assert_eq!(dependency_to_jsr_spec("  @std/path ", " ^1 "), "jsr:@std/path@^1");
    assert_eq!(dependency_to_jsr_spec("jsr:x", "  "), "jsr:x");
    assert_eq!(dependency_to_jsr_spec("", ""), "jsr:");
}

#[test]
fn deno_tooling_is_preferred_for_deno_and_plain_javascript_projects() {
    let none = ProjectFiles {
        deno_json: false,
        deno_jsonc: false,
        cargo_toml: false,
        package_json: false,
        tsconfig_json: false,
        jsconfig_json: false,
    };
    assert!(!should_prefer_deno_tooling(none));
    assert!(should_prefer_deno_tooling(ProjectFiles { deno_json: true, cargo_toml: true, ..none }));
    assert!(should_prefer_deno_tooling(ProjectFiles { deno_jsonc: true, ..none }));
    assert!(should_prefer_deno_tooling(ProjectFiles { package_json: true, ..none }));
    assert!(should_prefer_deno_tooling(ProjectFiles { tsconfig_json: true, ..none }));
    assert!(should_prefer_deno_tooling(ProjectFiles { jsconfig_json: true, ..none }));
    assert!(!should_prefer_deno_tooling(ProjectFiles { package_json: true, cargo_toml: true, ..none }));
    assert!(!should_prefer_deno_tooling(ProjectFiles { cargo_toml: true, ..none }));
}

#[test]
fn session_lines_are_commands_or_statements() {
    assert_eq!(classify_repl_line("  \n"), ReplLine::Blank);
    assert_eq!(classify_repl_line(".help\n"), ReplLine::Help);
    assert_eq!(classify_repl_line(" .exit "), ReplLine::Exit);
    assert_eq!(classify_repl_line(".web start\n"), ReplLine::Web(".web start".to_string()));
    assert_eq!(classify_repl_line(".webby"), ReplLine::Web(".webby".to_string()));
    assert_eq!(
        classify_repl_line("  print hello \n"),
        ReplLine::Statement("print hello".to_string())
    );
    assert_eq!(classify_repl_line(".helpme"), ReplLine::Statement(".helpme".to_string()));
}

fn tool(program: &str, words: &[&str], display: &str) -> ToolCommand {
    ToolCommand { program: program.to_string(), args: args(words), display: display.to_string() }
}

#[test]
fn the_tools_are_called_with_the_right_arguments() {
    assert_eq!(lint_invocation(true, false, args(&[])), tool("deno", &["lint"], "lint"));
    assert_eq!(
        lint_invocation(true, true, args(&["a.ts", "b"])),
        tool("deno", &["lint", "--fix", "a.ts", "b"], "lint")
    );
    assert_eq!(
        lint_invocation(false, false, args(&["src"])),
        tool("cargo", &["clippy", "--all-targets", "--all-features", "src"], "clippy")
    );
    assert_eq!(
        lint_invocation(false, true, args(&[])),
        tool(
            "cargo",
            &["clippy", "--all-targets", "--all-features", "--fix", "--allow-dirty", "--allow-staged"],
            "clippy"
        )
    );
    assert_eq!(
        fmt_invocation(true, true, args(&["a.ts"])),
        tool("deno", &["fmt", "--check", "a.ts"], "fmt")
    );
    assert_eq!(fmt_invocation(true, false, args(&[])), tool("deno", &["fmt"], "fmt"));
    assert_eq!(
        fmt_invocation(false, true, args(&["a.rs"])),
        tool("cargo", &["fmt", "--all", "--check"], "fmt")
    );
    assert_eq!(fmt_invocation(false, false, args(&[])), tool("cargo", &["fmt", "--all"], "fmt"));
    assert!(fmt_ignores_paths(false, &args(&["a.rs"])));
    assert!(!fmt_ignores_paths(true, &args(&["a.rs"])));
    assert!(!fmt_ignores_paths(false, &args(&[])));
    assert_eq!(
        test_invocation(args(&["--watch", "x_test.ts"])),
        tool("deno", &["test", "--watch", "x_test.ts"], "test")
    );
}

#[test]
fn installing_runs_the_script_or_fetches_the_dependencies() {
    let pair = |a: &str, b: &str| (a.to_string(), b.to_string());
    let mut cfg = FileConfig {
        dependencies: Some(vec![pair("@std/path", "^1"), pair("jsr:@a/b", "")]),
        ..FileConfig::default()
    };
    assert_eq!(
        install_plan(&cfg),
        InstallPlan::Fetch(args(&["jsr:@std/path@^1", "jsr:@a/b"]))
    );
    cfg.scripts = Some(vec![pair("build", "make")]);
    assert_eq!(
        install_plan(&cfg),
        InstallPlan::Fetch(args(&["jsr:@std/path@^1", "jsr:@a/b"]))
    );
    cfg.scripts = Some(vec![pair("build", "make"), pair("install", "npm ci")]);
    assert_eq!(install_plan(&cfg), InstallPlan::RunScript("npm ci".to_string()));
    assert_eq!(install_plan(&FileConfig::default()), InstallPlan::Nothing);
    cfg.scripts = None;
    cfg.dependencies = Some(Vec::new());
    assert_eq!(install_plan(&cfg), InstallPlan::Nothing);
}
