use klumo::clients::MaybeClient;
use klumo::compiler::{
    CompileError, CompileMetadata, CompileRequest, CompileResult, Compiler, SourceKind,
};
use klumo::heal::{
    accept_file_patch, accept_repl_candidate, build_repl_self_heal_request,
    build_self_heal_request, can_continue_self_heal, compile_repl_heal_candidate, diagnose,
    file_heal_policy, file_heal_request, is_non_recoverable_self_heal_error, unhealed_failure,
    FileHealPolicy, parse_self_heal_limit, repair_file,
    repl_heal_request, summarize_error, FailureStage, HealAction, HealError, HealEvent, HealPhase,
    RepairAttempt, SelfHeal,
};
use klumo::paths::{
    backup_is_due, backup_path_for, default_bundle_output, extension,
    is_self_heal_supported_source,
};
use klumo::provider::{LlmClient, LlmTranslateRequest, ProviderSelection, TranslateError};
use std::cell::RefCell;

#[test]
fn main_self_heal_supported_extensions_are_limited() {
    assert!(is_self_heal_supported_source("a.js"));
    assert!(is_self_heal_supported_source("a.mjs"));
    assert!(is_self_heal_supported_source("a.cjs"));
    assert!(is_self_heal_supported_source("a.jsx"));
    assert!(!is_self_heal_supported_source("a.ts"));
    assert!(!is_self_heal_supported_source("a.pseudo"));
}

#[test]
fn main_backup_path_is_derived_from_file_name() {
    let backup = backup_path_for("/tmp/demo.js");
    assert_eq!(backup, "/tmp/demo.js.klumo.bak");
}

#[test]
fn main_self_heal_prompt_contains_error_and_source() {
    let prompt = build_self_heal_request("demo.js", "console.log(1)", "ReferenceError");
    assert!(prompt.contains("demo.js"));
    assert!(prompt.contains("ReferenceError"));
    assert!(prompt.contains("console.log(1)"));
    assert!(prompt.contains("Return ONLY complete JavaScript source"));
}

#[test]
fn repl_self_heal_prompt_contains_structured_error_report() {
    let prompt = build_repl_self_heal_request(
        "print user profile",
        Some("const x = y;"),
        "failed evaluating <repl>: ReferenceError: y is not defined",
        0,
    );
    assert!(prompt.contains("FAILURE REPORT"));
    assert!(prompt.contains("Failure stage: runtime execution after JS generation"));
    assert!(prompt.contains("Probable cause: Undefined variable or symbol usage."));
    assert!(prompt.contains("FULL ERROR OUTPUT"));
    assert!(prompt.contains("const x = y;"));
}

#[test]
fn self_heal_limit_predicate_handles_unlimited_and_bounded() {
    assert!(can_continue_self_heal(0, None));
    assert!(can_continue_self_heal(10, None));
    assert!(can_continue_self_heal(0, Some(1)));
    assert!(!can_continue_self_heal(1, Some(1)));
}

#[test]
fn non_recoverable_error_detection_matches_provider_failures() {
    assert!(is_non_recoverable_self_heal_error(
        "OPENAI_API_KEY is required for OpenAI-compatible translation"
    ));
    assert!(is_non_recoverable_self_heal_error("llm unavailable"));
    assert!(!is_non_recoverable_self_heal_error(
        "ReferenceError: value is not defined"
    ));
}

#[test]
fn the_whole_file_prompt_is_exact() {
    assert_eq!(
        build_self_heal_request("demo.js", "console.log(1)", "ReferenceError: x"),
        "Repair this JavaScript file so it runs successfully.\n\
Return ONLY complete JavaScript source for the full file, no markdown, no prose.\n\
Preserve behavior and structure as much as possible.\n\
File: demo.js\n\
Runtime error:\nReferenceError: x\n\
SOURCE START\nconsole.log(1)\n\
SOURCE END"
    );
}

#[test]
fn the_session_prompt_is_exact() {
    assert_eq!(
        build_repl_self_heal_request("say hi", None, "\n  llm unavailable  \nmore", 9),
        "You are repairing a failed Klumo REPL attempt.\n\
Goal: produce JavaScript that runs successfully in the current REPL session.\n\
Return ONLY runnable JavaScript script statements. No markdown, no prose, no import/export.\n\
Keep user intent and behavior as close as possible.\n\n\
FAILURE REPORT\n\
- Attempt number: 10\n\
- Failure stage: translation/compile before execution\n\
- Error summary: llm unavailable\n\
- Probable cause: Provider/config issue prevented translation.\n\n\
USER PROMPT:\nsay hi\n\n\
FAILED JAVASCRIPT:\n<none produced before failure>\n\n\
FULL ERROR OUTPUT:\n\n  llm unavailable  \nmore\n\n\
REPAIR REQUIREMENTS\n\
1. Fix the direct cause of the error.\n\
2. Keep side effects minimal and preserve existing REPL bindings when possible.\n\
3. Output only executable script statements.\n"
    );
    let with_js = build_repl_self_heal_request("p", Some("f()"), "TypeError: f", 0);
    assert!(with_js.contains("- Attempt number: 1\n"));
    assert!(with_js.contains("FAILED JAVASCRIPT:\nf()\n\nFULL ERROR OUTPUT:\nTypeError: f\n\n"));
}

#[test]
fn errors_are_summarized_and_diagnosed() {
    assert_eq!(summarize_error("\n\n  first line \r\nsecond"), "first line");
    assert_eq!(summarize_error(""), "unknown error");
    assert_eq!(summarize_error(" \n\t\n"), "unknown error");
    assert_eq!(diagnose("ReferenceError and TypeError"), "Undefined variable or symbol usage.");
    assert_eq!(
        diagnose("TypeError: x is null"),
        "Invalid operation on value type (often null/undefined access)."
    );
    assert_eq!(diagnose("SyntaxError"), "Generated JS contains invalid syntax.");
    assert_eq!(
        diagnose("failed evaluating <repl>: boom"),
        "Runtime engine rejected or failed while evaluating the generated script."
    );
    assert_eq!(diagnose("OPENAI_API_KEY is missing"), "Provider/config issue prevented translation.");
    assert_eq!(diagnose("llm unavailable"), "Provider/config issue prevented translation.");
    assert_eq!(
        diagnose("weird"),
        "General execution/translation failure; inspect exact error text."
    );
    assert_eq!(FailureStage::Translation.describe(), "translation/compile before execution");
    assert_eq!(FailureStage::Execution.describe(), "runtime execution after JS generation");
    assert!(is_non_recoverable_self_heal_error("error: unknown provider 'x'"));
}

#[test]
fn the_limit_of_a_session_is_read_from_its_setting() {
    assert_eq!(parse_self_heal_limit(None), None);
    assert_eq!(parse_self_heal_limit(Some("0")), None);
    assert_eq!(parse_self_heal_limit(Some(" 3 ")), Some(3));
    assert_eq!(parse_self_heal_limit(Some("+7")), Some(7));
    assert_eq!(parse_self_heal_limit(Some("007")), Some(7));
    assert_eq!(parse_self_heal_limit(Some("")), None);
    assert_eq!(parse_self_heal_limit(Some("+")), None);
    assert_eq!(parse_self_heal_limit(Some("-1")), None);
    assert_eq!(parse_self_heal_limit(Some("3x")), None);
    assert_eq!(parse_self_heal_limit(Some("1 2")), None);
    assert_eq!(parse_self_heal_limit(Some(&usize::MAX.to_string())), Some(usize::MAX));
    assert_eq!(parse_self_heal_limit(Some("99999999999999999999999999")), None);
    assert_eq!(
        parse_self_heal_limit(Some("18446744073709551616")),
        "18446744073709551616".parse::<usize>().ok()
    );
}

#[test]
fn paths_are_derived_from_the_source_path() {
    assert_eq!(extension("a/b.c/d"), None);
    assert_eq!(extension("a/b.c/d.TAR.gz").as_deref(), Some("gz"));
    assert_eq!(extension(".bashrc"), None);
    assert_eq!(extension("dir/.bashrc.bak").as_deref(), Some("bak"));
    assert_eq!(extension(".."), None);
    assert_eq!(extension("name.").as_deref(), Some(""));
    assert!(is_self_heal_supported_source("dir.d/App.JSX"));
    assert!(!is_self_heal_supported_source("js"));
    assert!(!is_self_heal_supported_source(".js"));
    assert!(!is_self_heal_supported_source("a.js/b"));
    assert_eq!(default_bundle_output("demo.js"), "demo.bundle.js");
    assert_eq!(default_bundle_output("src/demo.pseudo"), "src/demo.bundle.js");
    assert_eq!(default_bundle_output("src.d/demo"), "src.d/demo.bundle.js");
    assert_eq!(default_bundle_output(".env"), ".env.bundle.js");
    assert_eq!(default_bundle_output("dir/"), "dir/");
    assert_eq!(default_bundle_output(".."), "..");
    assert!(backup_is_due(false));
    assert!(!backup_is_due(true));
}

struct ScriptedCompiler {
    answers: RefCell<Vec<Result<String, CompileError>>>,
    seen: RefCell<Vec<CompileRequest>>,
}

impl ScriptedCompiler {
    fn new(answers: Vec<Result<&str, &str>>) -> Self {
        ScriptedCompiler {
            answers: RefCell::new(
                answers
                    .into_iter()
                    .rev()
                    .map(|a| {
                        a.map(str::to_string).map_err(|e| {
                            CompileError::Translate(TranslateError::Service(e.to_string()))
                        })
                    })
                    .collect(),
            ),
            seen: RefCell::new(Vec::new()),
        }
    }
}

impl Compiler for ScriptedCompiler {
    fn compile(&self, req: &CompileRequest) -> Result<CompileResult, CompileError> {
        self.seen.borrow_mut().push(req.clone());
        let answer = self.answers.borrow_mut().pop().expect("an answer is scripted");
        answer.map(|javascript| CompileResult {
            javascript,
            metadata: CompileMetadata {
                provider: None,
                model: None,
                prompt_version: "m1-v1".to_string(),
                cache_hit: false,
            },
        })
    }
}

#[test]
fn repair_requests_are_forced_uncached_and_tagged_by_attempt() {
    let req = repl_heal_request(
        "pseudocode",
        ProviderSelection::Ollama,
        Some("m".to_string()),
        Some("ctx".to_string()),
        "PROMPT".to_string(),
        3,
    );
    assert_eq!(req.source_text, "PROMPT");
    assert_eq!(req.source_id, "<repl-self-heal-3>");
    assert_eq!(req.kind_hint, Some(SourceKind::Unknown("pseudocode".to_string())));
    assert_eq!(req.language_hint.as_deref(), Some("pseudocode"));
    assert_eq!(req.scope_context.as_deref(), Some("ctx"));
    assert!(req.force_llm && req.no_cache);
    assert_eq!(req.provider_selection, ProviderSelection::Ollama);
    assert_eq!(req.model_override.as_deref(), Some("m"));

    let req = file_heal_request("demo.js", "src", "err", 0, ProviderSelection::Auto, None);
    assert_eq!(req.source_text, build_self_heal_request("demo.js", "src", "err"));
    assert_eq!(req.source_id, "demo.js#self-heal-1");
    assert_eq!(req.kind_hint, Some(SourceKind::Unknown("self-heal".to_string())));
    assert_eq!(req.language_hint.as_deref(), Some("self-heal-javascript"));
    assert_eq!(req.scope_context, None);
    assert!(req.force_llm && req.no_cache);
    assert_eq!(req.model_override, None);
}

#[test]
fn repaired_output_is_refused_when_nothing_is_left_of_it() {
    assert_eq!(accept_repl_candidate("export const a = 1;"), Ok("const a = 1;".to_string()));
    assert_eq!(accept_repl_candidate("import a from 'a';\n  \n"), Err(HealError::EmptySnippet));
    assert_eq!(
        HealError::EmptySnippet.message(),
        "self-heal generated empty JavaScript after module-syntax cleanup"
    );
    assert_eq!(accept_file_patch(" \n".to_string()), Err(HealError::EmptyFile));
    assert_eq!(accept_file_patch(" x\n".to_string()), Ok(" x\n".to_string()));
    assert_eq!(HealError::EmptyFile.message(), "self-heal generated empty output");

    let compiler = ScriptedCompiler::new(vec![Ok("import x from 'y'"), Ok("export default f()"), Err("boom")]);
    let call = |attempt| {
        compile_repl_heal_candidate(
            &compiler,
            "pseudocode",
            ProviderSelection::Auto,
            None,
            None,
            "PROMPT".to_string(),
            attempt,
        )
    };
    assert_eq!(call(0), Err(HealError::EmptySnippet));
    assert_eq!(call(1), Ok("f()".to_string()));
    let err = call(2).expect_err("compile fails");
    assert_eq!(err.message(), "boom");
    assert_eq!(compiler.seen.borrow()[1].source_id, "<repl-self-heal-1>");

    let compiler = ScriptedCompiler::new(vec![Ok("fixed()"), Ok("  ")]);
    assert_eq!(
        repair_file(&compiler, "a.js", "broken()", "err", 0, ProviderSelection::Auto, None),
        Ok("fixed()".to_string())
    );
    assert_eq!(
        repair_file(&compiler, "a.js", "broken()", "err", 1, ProviderSelection::Auto, None),
        Err(HealError::EmptyFile)
    );
    assert_eq!(compiler.seen.borrow()[1].source_id, "a.js#self-heal-2");
}

fn drive_failing(machine: &mut SelfHeal, repair_error: &str) -> (usize, usize) {
    let mut executions = 0;
    let mut repairs = 0;
    loop {
        match machine.action() {
            HealAction::Execute(_) => {
                executions += 1;
                machine.step(HealEvent::ExecutionFailed("failed evaluating <repl>: boom".to_string()));
            }
            HealAction::Repair(_) => {
                repairs += 1;
                machine.step(HealEvent::RepairFailed(repair_error.to_string()));
            }
            HealAction::Stop => return (executions, repairs),
        }
    }
}

#[test]
fn with_a_bound_of_k_exactly_k_repairs_are_asked_for() {
    for k in [0usize, 1, 2, 5] {
        let mut machine = SelfHeal::start(Some(k), "boom()".to_string());
        let (executions, repairs) = drive_failing(&mut machine, "stub failure");
        assert_eq!(repairs, k);
        assert_eq!(executions, k + 1);
        assert_eq!(machine.phase(), HealPhase::Exhausted);
        assert_eq!(machine.attempts(), k);
        assert!(machine.is_finished());
        assert_eq!(
            machine.failure_message("demo.js"),
            Some(format!(
                "failed running demo.js after {k} self-heal attempts: failed evaluating <repl>: boom"
            ))
        );

        let mut machine = SelfHeal::start_untranslated(Some(k), "no translation".to_string());
        let (executions, repairs) = drive_failing(&mut machine, "stub failure");
        assert_eq!((executions, repairs), (0, k));
        assert_eq!(machine.phase(), HealPhase::Exhausted);
        assert_eq!(
            machine.failure_message("<repl>"),
            Some(format!("failed running <repl> after {k} self-heal attempts: no translation"))
        );
    }
}

#[test]
fn a_missing_credential_stops_the_run_at_once() {
    for limit in [Some(5usize), None] {
        let mut machine = SelfHeal::start(limit, "boom()".to_string());
        let (executions, repairs) = drive_failing(
            &mut machine,
            "OPENAI_API_KEY is required for OpenAI-compatible translation",
        );
        assert_eq!((executions, repairs), (1, 1));
        assert_eq!(machine.phase(), HealPhase::Aborted);
        assert_eq!(machine.attempts(), 0);
        assert_eq!(machine.action(), HealAction::Stop);
        assert_eq!(
            machine.failure_message("demo.js").as_deref(),
            Some("self-heal failed for demo.js: OPENAI_API_KEY is required for OpenAI-compatible translation")
        );
        machine.step(HealEvent::Repaired("late()".to_string()));
        assert_eq!(machine.phase(), HealPhase::Aborted);
    }
}

#[test]
fn a_repair_that_runs_ends_the_run() {
    let mut machine = SelfHeal::start(Some(3), "first()".to_string());
    assert_eq!(machine.action(), HealAction::Execute("first()".to_string()));
    machine.step(HealEvent::ExecutionFailed("\nTypeError: first is not a function".to_string()));
    assert_eq!(machine.phase(), HealPhase::Repairing);
    assert_eq!(
        machine.action(),
        HealAction::Repair(RepairAttempt {
            attempt: 0,
            stage: FailureStage::Execution,
            error_summary: "TypeError: first is not a function".to_string(),
            error_text: "\nTypeError: first is not a function".to_string(),
            failed_javascript: Some("first()".to_string()),
        })
    );
    // An event that does not answer what was asked for changes nothing.
    machine.step(HealEvent::Executed);
    assert_eq!(machine.phase(), HealPhase::Repairing);
    machine.step(HealEvent::Repaired("second()".to_string()));
    assert_eq!(machine.attempts(), 1);
    assert_eq!(machine.candidate().as_deref(), Some("second()"));
    assert_eq!(machine.action(), HealAction::Execute("second()".to_string()));
    machine.step(HealEvent::Executed);
    assert_eq!(machine.phase(), HealPhase::Succeeded);
    assert!(machine.is_finished());
    assert_eq!(machine.failure_message("x"), None);
    assert_eq!(machine.last_error(), "\nTypeError: first is not a function");

    let mut untranslated = SelfHeal::start_untranslated(None, "llm timed out".to_string());
    match untranslated.action() {
        HealAction::Repair(attempt) => {
            assert_eq!(attempt.stage, FailureStage::Translation);
            assert_eq!(attempt.failed_javascript, None);
            assert_eq!(
                attempt.repl_prompt("say hi"),
                build_repl_self_heal_request("say hi", None, "llm timed out", 0)
            );
        }
        other => panic!("unexpected action {other:?}"),
    }
    untranslated.step(HealEvent::RepairFailed("still down".to_string()));
    assert_eq!(untranslated.attempts(), 1);
    assert_eq!(untranslated.phase(), HealPhase::Repairing);
    untranslated.step(HealEvent::Repaired("hi()".to_string()));
    assert_eq!(untranslated.action(), HealAction::Execute("hi()".to_string()));
}

struct Never;

impl LlmClient for Never {
    fn translate_to_js(&self, _req: &LlmTranslateRequest, _model: &str) -> Result<String, String> {
        Ok("never".to_string())
    }
}

#[test]
fn a_backend_without_its_credential_fails_beyond_recovery() {
    let req = LlmTranslateRequest {
        source_text: "x".to_string(),
        source_id: "y".to_string(),
        language_hint: None,
        scope_context: None,
    };
    let missing: MaybeClient<Never> = MaybeClient { inner: None };
    let err = missing.translate_to_js(&req, "m").expect_err("no credential");
    assert_eq!(err, "OPENAI_API_KEY is required for OpenAI-compatible translation");
    assert!(is_non_recoverable_self_heal_error(&err));
    let present = MaybeClient { inner: Some(Never) };
    assert_eq!(present.translate_to_js(&req, "m"), Ok("never".to_string()));
}

#[test]
fn self_heal_supported_extensions_are_limited() {
    assert!(is_self_heal_supported_source("a.js"));
    assert!(is_self_heal_supported_source("a.mjs"));
    assert!(is_self_heal_supported_source("a.cjs"));
    assert!(is_self_heal_supported_source("a.jsx"));
    assert!(!is_self_heal_supported_source("a.ts"));
    assert!(!is_self_heal_supported_source("a.pseudo"));
}

#[test]
fn self_heal_prompt_contains_error_and_source() {
    let prompt = build_self_heal_request("demo.js", "console.log(1)", "ReferenceError");
    assert!(prompt.contains("demo.js"));
    assert!(prompt.contains("ReferenceError"));
    assert!(prompt.contains("console.log(1)"));
    assert!(prompt.contains("Return ONLY complete JavaScript source"));
}

#[test]
fn files_that_are_not_healed_fail_with_the_reason() {
    assert_eq!(file_heal_policy(false, "a.js"), FileHealPolicy::Off);
    assert_eq!(file_heal_policy(true, "a.pseudo"), FileHealPolicy::Unsupported);
    assert_eq!(file_heal_policy(true, "a.MJS"), FileHealPolicy::On);
    assert_eq!(
        unhealed_failure("a.js", FileHealPolicy::Off, "failed evaluating a.js: boom"),
        "failed running a.js: failed evaluating a.js: boom"
    );
    assert_eq!(
        unhealed_failure("a.pseudo", FileHealPolicy::Unsupported, "boom"),
        "failed running a.pseudo (self-heal currently supports .js/.mjs/.cjs/.jsx): boom"
    );
}
