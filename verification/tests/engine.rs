use klumo::compiler::{CompileMetadata, CompileResult};
use klumo::engine::{
    evaluation_failure, parse_engine_choice, EngineChoice, EngineError, EvalOutput, JsEngine,
    V8Engine,
};
use klumo::run::{eval_inline, execute_compiled, RunError};

struct Echo {
    names: Vec<String>,
}

impl JsEngine for Echo {
    fn eval_script(&mut self, source: &str, source_name: &str) -> Result<EvalOutput, EngineError> {
        self.names.push(source_name.to_string());
        if source.contains("throw") {
            return Err(evaluation_failure(source_name, "Error: boom"));
        }
        Ok(EvalOutput { value: Some(source.to_string()), diagnostics: Vec::new() })
    }
}

#[test]
fn v8_engine_reports_unavailable() {
    let err = V8Engine::new().expect_err("v8 is not implemented yet");
    assert!(err.message.contains("not implemented"));
}

#[test]
fn inline_code_runs_under_the_name_eval() {
    let mut engine = Echo { names: Vec::new() };
    let out = eval_inline(&mut engine, "1 + 2").expect("runs");
    assert_eq!(out.value.as_deref(), Some("1 + 2"));
    assert_eq!(engine.names, vec!["<eval>".to_string()]);

    let boxed: &mut dyn JsEngine = &mut engine;
    let err = eval_inline(boxed, "throw 1").expect_err("fails");
    assert_eq!(err.message, "failed evaluating <eval>: Error: boom");
}

#[test]
fn executing_keeps_the_compile_result() {
    let compile = CompileResult {
        javascript: "21 * 2".to_string(),
        metadata: CompileMetadata {
            provider: None,
            model: None,
            prompt_version: "m1-v1".to_string(),
            cache_hit: false,
        },
    };
    let mut engine = Echo { names: Vec::new() };
    let outcome = execute_compiled(&mut engine, compile.clone(), "hello.js").expect("runs");
    assert_eq!(outcome.compile, compile);
    assert_eq!(outcome.eval.value.as_deref(), Some("21 * 2"));
    assert_eq!(engine.names, vec!["hello.js".to_string()]);

    let failing = CompileResult { javascript: "throw new Error('boom')".to_string(), ..compile };
    let err = execute_compiled(&mut engine, failing, "boom.js").expect_err("fails");
    assert!(matches!(err, RunError::Engine(_)));
    assert!(err.message().contains("failed evaluating boom.js"));
}

#[test]
fn the_engine_is_chosen_by_its_name() {
    assert_eq!(parse_engine_choice(None), Ok(EngineChoice::Boa));
    assert_eq!(parse_engine_choice(Some(" BOA\n")), Ok(EngineChoice::Boa));
    assert_eq!(parse_engine_choice(Some("v8")), Ok(EngineChoice::V8));
    let err = parse_engine_choice(Some(" Quick ")).expect_err("unknown");
    assert_eq!(err.message, "unknown engine 'quick'. Supported: 'boa', 'v8'");
    let mut v8 = V8Engine;
    let err = v8.eval_script("1", "x").expect_err("not there");
    assert_eq!(
        err.message,
        "V8 backend is scaffolded but not implemented yet. Use KLUMO_ENGINE=boa for now."
    );
}
