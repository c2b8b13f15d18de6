use klumo::clients::{
    build_prompt, endpoint, first_choice, request_failure, OllamaClient, OpenAiCompatibleClient,
    OLLAMA_TIMEOUT_SECS, OPENAI_SYSTEM_MESSAGE, OPENAI_TIMEOUT_SECS, PROBE_TIMEOUT_SECS,
};
use klumo::compiler::{CompileMetadata, CompileResult};
use klumo::engine::{EngineError, EvalOutput, JsEngine};
use klumo::provider::{LlmTranslateRequest, Provider, ProviderSelection};
use klumo::run::{
    compile_source, javascript_is_shown, minimal_bundle_report, minimal_compile_report, run_source,
    source_compile_request, verbose_compile_report, ProgressMode, RunError, RunOptions,
};
use klumo::session::{
    global_names_of, read_global_names, repl_language, repl_request, SessionError, SCOPE_PROBE,
};
use klumo::compiler::{CompileError, CompileRequest, Compiler, SourceKind};
use klumo::provider::TranslateError;

#[test]
fn endpoints_stand_under_the_base_address() {
    assert_eq!(endpoint("http://h:1", "/api/tags"), "http://h:1/api/tags");
    assert_eq!(endpoint("http://h:1///", "/api/tags"), "http://h:1/api/tags");
    assert_eq!(endpoint("", "/x"), "/x");
    assert_eq!(endpoint("///", "/x"), "/x");
    let local = OllamaClient::new("http://127.0.0.1:11434/".to_string()).expect("client");
    assert_eq!(local.base_url, "http://127.0.0.1:11434/");
    assert_eq!(local.timeout_secs, 2);
    assert_eq!(local.tags_url(), "http://127.0.0.1:11434/api/tags");
    assert_eq!(local.generate_url(), "http://127.0.0.1:11434/api/generate");
    let hosted = OpenAiCompatibleClient::from_parts("https://api.openai.com/v1".to_string(), "k".to_string());
    assert_eq!(hosted.chat_completions_url(), "https://api.openai.com/v1/chat/completions");
    assert_eq!(hosted.api_key, "k");
    assert_eq!((PROBE_TIMEOUT_SECS, OLLAMA_TIMEOUT_SECS, OPENAI_TIMEOUT_SECS), (2, 30, 45));
    assert_eq!(
        OPENAI_SYSTEM_MESSAGE,
        "You convert arbitrary source text into executable JavaScript. Return code only."
    );
}

#[test]
fn the_prompt_is_exact() {
    let mut req = LlmTranslateRequest {
        source_text: "write hello".to_string(),
        source_id: "live.pseudo".to_string(),
        language_hint: Some("pseudocode".to_string()),
        scope_context: None,
    };
    assert_eq!(
        build_prompt(&req),
        "You are a strict transpiler. Return only runnable modern JavaScript (Node-style ESM), no prose.\\nSource id: live.pseudo\\nLanguage hint: pseudocode\\nINPUT START\\nwrite hello\\nINPUT END"
    );
    req.language_hint = None;
    req.scope_context = Some("Bindings: a".to_string());
    assert_eq!(
        build_prompt(&req),
        "You are a strict transpiler. Return only runnable modern JavaScript (Node-style ESM), no prose.\\nSource id: live.pseudo\\nLanguage hint: unknown\\nSession context: Bindings: a\\nINPUT START\\nwrite hello\\nINPUT END"
    );
}

#[test]
fn failed_calls_are_put_into_words() {
    assert_eq!(
        request_failure("Ollama", "500 Internal Server Error", "<unavailable>"),
        "Ollama request failed (500 Internal Server Error): <unavailable>"
    );
    assert_eq!(first_choice(vec!["a".to_string(), "b".to_string()]), Ok("a".to_string()));
    assert_eq!(
        first_choice(Vec::new()),
        Err("OpenAI-compatible response had no choices".to_string())
    );
}

fn options() -> RunOptions {
    RunOptions {
        kind_hint: None,
        language_hint: None,
        force_llm: false,
        no_cache: true,
        print_js: false,
        provider_selection: ProviderSelection::Auto,
        model_override: None,
        progress_mode: ProgressMode::Silent,
    }
}

fn result(provider: Option<Provider>, model: Option<&str>, cache_hit: bool) -> CompileResult {
    CompileResult {
        javascript: "1".to_string(),
        metadata: CompileMetadata {
            provider,
            model: model.map(str::to_string),
            prompt_version: "m1-v1".to_string(),
            cache_hit,
        },
    }
}

#[test]
fn what_a_run_reports() {
    let plain = result(None, None, false);
    let translated = result(Some(Provider::OpenAiCompatible), Some("gpt \"4\""), true);
    assert_eq!(minimal_compile_report(&plain), None);
    assert_eq!(
        minimal_compile_report(&translated).as_deref(),
        Some("compiling via openaicompatible:gpt \"4\" (cache_hit=true)")
    );
    assert_eq!(
        minimal_compile_report(&result(Some(Provider::Ollama), None, false)).as_deref(),
        Some("compiling via ollama: (cache_hit=false)")
    );
    assert_eq!(
        minimal_bundle_report(&translated).as_deref(),
        Some("bundled via openaicompatible:gpt \"4\" (cache_hit=true)")
    );
    assert_eq!(minimal_bundle_report(&plain), None);
    assert_eq!(
        verbose_compile_report(&plain),
        "compile complete provider=None model=None cache_hit=false"
    );
    assert_eq!(
        verbose_compile_report(&translated),
        "compile complete provider=Some(OpenAiCompatible) model=Some(\"gpt \\\"4\\\"\") cache_hit=true"
    );

    let mut opts = options();
    assert!(!javascript_is_shown(&opts, &translated));
    opts.progress_mode = ProgressMode::Verbose;
    assert!(javascript_is_shown(&opts, &translated));
    assert!(!javascript_is_shown(&opts, &plain));
    opts.progress_mode = ProgressMode::Minimal;
    opts.print_js = true;
    assert!(javascript_is_shown(&opts, &plain));
}

struct Upper;

impl Compiler for Upper {
    fn compile(&self, req: &CompileRequest) -> Result<CompileResult, CompileError> {
        if req.source_text.contains("broken") {
            return Err(CompileError::Translate(TranslateError::Service("compile failed".to_string())));
        }
        Ok(CompileResult {
            javascript: req.source_text.to_uppercase(),
            metadata: CompileMetadata {
                provider: None,
                model: None,
                prompt_version: req.source_id.clone(),
                cache_hit: req.force_llm,
            },
        })
    }
}

struct Recorder {
    scripts: Vec<(String, String)>,
    globals: Option<Result<Option<String>, String>>,
}

impl JsEngine for Recorder {
    fn eval_script(&mut self, source: &str, source_name: &str) -> Result<EvalOutput, EngineError> {
        self.scripts.push((source.to_string(), source_name.to_string()));
        if source_name == "<repl-scope>" {
            return match self.globals.clone().expect("globals are scripted") {
                Ok(value) => Ok(EvalOutput { value, diagnostics: Vec::new() }),
                Err(message) => Err(EngineError { message }),
            };
        }
        if source.contains("BOOM") {
            return Err(EngineError { message: format!("failed evaluating {source_name}: boom") });
        }
        Ok(EvalOutput { value: Some(source.to_string()), diagnostics: Vec::new() })
    }
}

#[test]
fn a_source_is_compiled_under_the_options_and_then_run() {
    let mut opts = options();
    opts.kind_hint = Some(SourceKind::Unknown("pseudo".to_string()));
    opts.language_hint = Some("pseudocode".to_string());
    opts.model_override = Some("m".to_string());
    opts.force_llm = true;
    let req = source_compile_request("src".to_string(), "a.pseudo".to_string(), &opts);
    assert_eq!(req.source_text, "src");
    assert_eq!(req.source_id, "a.pseudo");
    assert_eq!(req.kind_hint, opts.kind_hint);
    assert_eq!(req.language_hint, opts.language_hint);
    assert_eq!(req.scope_context, None);
    assert_eq!(req.model_override, opts.model_override);
    assert!(req.force_llm && req.no_cache);

    let compiled = compile_source(&Upper, "abc".to_string(), "x.js".to_string(), &opts).expect("ok");
    assert_eq!(compiled.javascript, "ABC");
    assert_eq!(compiled.metadata.prompt_version, "x.js");

    let mut engine = Recorder { scripts: Vec::new(), globals: None };
    let outcome = run_source(&mut engine, &Upper, "abc".to_string(), "x.js", &opts).expect("runs");
    assert_eq!(outcome.compile.javascript, "ABC");
    assert_eq!(outcome.eval.value.as_deref(), Some("ABC"));
    assert_eq!(engine.scripts, vec![("ABC".to_string(), "x.js".to_string())]);

    let err = run_source(&mut engine, &Upper, "broken".to_string(), "x.js", &opts).expect_err("compile");
    assert!(matches!(err, RunError::Compile(_)));
    assert!(err.message().contains("compile failed"));
    let err = run_source(&mut engine, &Upper, "boom".to_string(), "x.js", &opts).expect_err("engine");
    assert!(matches!(err, RunError::Engine(_)));
    assert!(err.message().contains("failed evaluating"));
}

#[test]
fn global_names_are_read_from_the_probe() {
    assert_eq!(
        global_names_of(Some("[\"globalThis\", \"a\\u00e9\", \"\"]".to_string())),
        Ok(vec!["globalThis".to_string(), "aé".to_string(), String::new()])
    );
    assert_eq!(global_names_of(Some("[]".to_string())), Ok(Vec::new()));
    assert_eq!(global_names_of(None), Err(SessionError::EmptyProbe));
    for bad in ["", "{}", "[1]", "[\"a\"", "\"a\"", "[\"a\"] x"] {
        match global_names_of(Some(bad.to_string())) {
            Err(SessionError::ScopeJson(report)) => assert!(!report.is_empty()),
            other => panic!("unexpected {other:?}"),
        }
    }
    assert_eq!(SessionError::EmptyProbe.message(), "scope probe returned empty result");
    assert_eq!(
        SessionError::ScopeJson("EOF".to_string()).message(),
        "failed parsing REPL global scope JSON: EOF"
    );
    assert_eq!(
        SessionError::ScopeProbe("down".to_string()).message(),
        "failed reading REPL global scope: down"
    );

    let mut engine = Recorder { scripts: Vec::new(), globals: Some(Ok(Some("[\"x\"]".to_string()))) };
    assert_eq!(read_global_names(&mut engine), Ok(vec!["x".to_string()]));
    assert_eq!(engine.scripts, vec![(SCOPE_PROBE.to_string(), "<repl-scope>".to_string())]);
    engine.globals = Some(Ok(None));
    assert_eq!(read_global_names(&mut engine), Err(SessionError::EmptyProbe));
    engine.globals = Some(Err("down".to_string()));
    assert_eq!(read_global_names(&mut engine), Err(SessionError::ScopeProbe("down".to_string())));
}

#[test]
fn statements_of_a_session_always_go_to_a_provider() {
    assert_eq!(repl_language(None), "pseudocode");
    assert_eq!(repl_language(Some("english")), "english");
    let req = repl_request(
        "print hello",
        "pseudocode",
        Some("ctx".to_string()),
        ProviderSelection::OpenAiCompatible,
        None,
        false,
    );
    assert_eq!(req.source_text, "print hello");
    assert_eq!(req.source_id, "<repl>");
    assert_eq!(req.kind_hint, Some(SourceKind::Unknown("pseudocode".to_string())));
    assert_eq!(req.language_hint.as_deref(), Some("pseudocode"));
    assert_eq!(req.scope_context.as_deref(), Some("ctx"));
    assert!(req.force_llm);
    assert!(!req.no_cache);
    assert!(req.needs_llm());
}
